//! Bitmask flags which control how the detection engine behaves.
//!
//! A [`CookieFlags`] is a set of options, each one bit of an integer that the
//! engine takes as it stands. The constants of this module are those bits. Two
//! of them, [`MIME`] and [`NO_CHECK_BUILTIN`], name no bit of their own: each
//! is the union of other options and is defined as such.

use core::ops::BitOr;
use libc::c_int;
use vstd::prelude::*;
use vstd::std_specs::ops::BitOrSpecImpl;

verus! {

/// No flags.
pub const NONE: c_int = 0x000000;

/// Turn on debugging.
pub const DEBUG: c_int = 0x000001;

/// Follow symlinks.
pub const SYMLINK: c_int = 0x000002;

/// Check inside compressed files.
pub const COMPRESS: c_int = 0x000004;

/// Look at the contents of devices.
pub const DEVICES: c_int = 0x000008;

/// Return the MIME type.
pub const MIME_TYPE: c_int = 0x000010;

/// Return all matches.
pub const CONTINUE: c_int = 0x000020;

/// Print warnings to stderr.
pub const CHECK: c_int = 0x000040;

/// Restore access time on exit.
pub const PRESERVE_ATIME: c_int = 0x000080;

/// Leave unprintable chars as they are.
pub const RAW: c_int = 0x000100;

/// Handle `ENOENT` etc as real errors.
pub const ERROR: c_int = 0x000200;

/// Return the MIME encoding.
pub const MIME_ENCODING: c_int = 0x000400;

/// Return the MIME type and encoding.
pub const MIME: c_int = MIME_TYPE | MIME_ENCODING;

/// Return the Apple creator and type.
pub const APPLE: c_int = 0x000800;

/// Don't check for compressed files.
pub const NO_CHECK_COMPRESS: c_int = 0x001000;

/// Don't check for tar files.
pub const NO_CHECK_TAR: c_int = 0x002000;

/// Don't check magic entries.
pub const NO_CHECK_SOFT: c_int = 0x004000;

/// Don't check application type.
pub const NO_CHECK_APPTYPE: c_int = 0x008000;

/// Don't check for elf details.
pub const NO_CHECK_ELF: c_int = 0x010000;

/// Don't check for text files.
pub const NO_CHECK_TEXT: c_int = 0x020000;

/// Don't check for cdf files.
pub const NO_CHECK_CDF: c_int = 0x040000;

/// Don't check tokens.
pub const NO_CHECK_TOKENS: c_int = 0x100000;

/// Don't check text encodings.
pub const NO_CHECK_ENCODING: c_int = 0x200000;

/// No built-in tests; only consult the magic file.
pub const NO_CHECK_BUILTIN: c_int = NO_CHECK_COMPRESS | NO_CHECK_TAR | NO_CHECK_APPTYPE
    | NO_CHECK_ELF | NO_CHECK_TEXT | NO_CHECK_CDF | NO_CHECK_TOKENS | NO_CHECK_ENCODING;

/// Every bit that names an option.
pub const ALL: c_int = DEBUG | SYMLINK | COMPRESS | DEVICES | MIME_TYPE | CONTINUE | CHECK
    | PRESERVE_ATIME | RAW | ERROR | MIME_ENCODING | APPLE | NO_CHECK_COMPRESS | NO_CHECK_TAR
    | NO_CHECK_SOFT | NO_CHECK_APPTYPE | NO_CHECK_ELF | NO_CHECK_TEXT | NO_CHECK_CDF
    | NO_CHECK_TOKENS | NO_CHECK_ENCODING;

/// Whether `bit` is an option with a bit of its own.
pub open spec fn is_option(bit: c_int) -> bool {
    ||| bit == DEBUG
    ||| bit == SYMLINK
    ||| bit == COMPRESS
    ||| bit == DEVICES
    ||| bit == MIME_TYPE
    ||| bit == CONTINUE
    ||| bit == CHECK
    ||| bit == PRESERVE_ATIME
    ||| bit == RAW
    ||| bit == ERROR
    ||| bit == MIME_ENCODING
    ||| bit == APPLE
    ||| bit == NO_CHECK_COMPRESS
    ||| bit == NO_CHECK_TAR
    ||| bit == NO_CHECK_SOFT
    ||| bit == NO_CHECK_APPTYPE
    ||| bit == NO_CHECK_ELF
    ||| bit == NO_CHECK_TEXT
    ||| bit == NO_CHECK_CDF
    ||| bit == NO_CHECK_TOKENS
    ||| bit == NO_CHECK_ENCODING
}

/// Bitmask flags that specify how `Cookie` functions should behave.
///
/// A value never holds a bit outside [`ALL`]: the named options give such
/// values and [`CookieFlags::union`] keeps them so.
#[derive(Clone, Copy, Debug, PartialEq, Eq, Structural)]
pub struct CookieFlags {
    bits: c_int,
}

impl CookieFlags {
    /// The options as one integer, a bit for each.
    pub closed spec fn spec_bits(self) -> c_int {
        self.bits
    }

    /// The flag set whose bits are `bits`.
    pub closed spec fn of(bits: c_int) -> CookieFlags {
        CookieFlags { bits }
    }

    /// Only bits that name an option are on.
    pub open spec fn valid(self) -> bool {
        self.bits() & !ALL == 0
    }

    #[verifier::type_invariant]
    spec fn well_formed(self) -> bool {
        self.valid()
    }

    /// The flag set whose bits are the bitwise OR of the two.
    pub open spec fn spec_union(self, other: CookieFlags) -> CookieFlags {
        CookieFlags::of(self.bits() | other.bits())
    }

    /// Every option of `other` is on in `self`.
    pub open spec fn spec_contains(self, other: CookieFlags) -> bool {
        self.bits() & other.bits() == other.bits()
    }

    /// The raw value of the flags, as the engine takes it.
    #[verifier::when_used_as_spec(spec_bits)]
    pub fn bits(self) -> (r: c_int)
        ensures
            r == self.bits(),
            self.valid(),
    {
        proof {
            use_type_invariant(self);
        }
        self.bits
    }

    /// The union of two flag sets.
    #[verifier::when_used_as_spec(spec_union)]
    pub fn union(self, other: CookieFlags) -> (r: CookieFlags)
        ensures
            r == self.union(other),
            r.bits() == self.bits() | other.bits(),
            r@ == self@ + other@,
    {
        proof {
            use_type_invariant(self);
            use_type_invariant(other);
            lemma_union_valid(self, other);
            lemma_union_view(self, other);
        }
        CookieFlags { bits: self.bits | other.bits }
    }

    /// Whether every option of `other` is on in `self`.
    #[verifier::when_used_as_spec(spec_contains)]
    pub fn contains(self, other: CookieFlags) -> (r: bool)
        ensures
            r == self.contains(other),
            r == other@.subset_of(self@),
    {
        proof {
            use_type_invariant(other);
            lemma_contains_view(self, other);
        }
        self.bits & other.bits == other.bits
    }

    fn option(bit: c_int) -> (r: CookieFlags)
        requires
            is_option(bit),
        ensures
            r == CookieFlags::of(bit),
            r@ == set![bit],
    {
        proof {
            lemma_option_valid(bit);
            lemma_option_view(bit);
        }
        CookieFlags { bits: bit }
    }

    /// No flags.
    pub fn empty() -> (r: CookieFlags)
        ensures
            r == CookieFlags::of(NONE),
            r@ == Set::<c_int>::empty(),
    {
        proof {
            lemma_empty_view();
            assert(NONE & !ALL == 0) by (bit_vector);
        }
        CookieFlags { bits: NONE }
    }

    /// Turn on debugging.
    pub fn debug() -> (r: CookieFlags)
        ensures
            r == CookieFlags::of(DEBUG),
            r@ == set![DEBUG],
    {
        CookieFlags::option(DEBUG)
    }

    /// Follow symlinks.
    pub fn symlink() -> (r: CookieFlags)
        ensures
            r == CookieFlags::of(SYMLINK),
            r@ == set![SYMLINK],
    {
        CookieFlags::option(SYMLINK)
    }

    /// Check inside compressed files.
    pub fn compress() -> (r: CookieFlags)
        ensures
            r == CookieFlags::of(COMPRESS),
            r@ == set![COMPRESS],
    {
        CookieFlags::option(COMPRESS)
    }

    /// Look at the contents of devices.
    pub fn devices() -> (r: CookieFlags)
        ensures
            r == CookieFlags::of(DEVICES),
            r@ == set![DEVICES],
    {
        CookieFlags::option(DEVICES)
    }

    /// Return the MIME type.
    pub fn mime_type() -> (r: CookieFlags)
        ensures
            r == CookieFlags::of(MIME_TYPE),
            r@ == set![MIME_TYPE],
    {
        CookieFlags::option(MIME_TYPE)
    }

    /// Return all matches.
    pub fn continue_() -> (r: CookieFlags)
        ensures
            r == CookieFlags::of(CONTINUE),
            r@ == set![CONTINUE],
    {
        CookieFlags::option(CONTINUE)
    }

    /// Print warnings to stderr.
    pub fn check() -> (r: CookieFlags)
        ensures
            r == CookieFlags::of(CHECK),
            r@ == set![CHECK],
    {
        CookieFlags::option(CHECK)
    }

    /// Restore access time on exit.
    pub fn preserve_atime() -> (r: CookieFlags)
        ensures
            r == CookieFlags::of(PRESERVE_ATIME),
            r@ == set![PRESERVE_ATIME],
    {
        CookieFlags::option(PRESERVE_ATIME)
    }

    /// Leave unprintable chars as they are.
    pub fn raw() -> (r: CookieFlags)
        ensures
            r == CookieFlags::of(RAW),
            r@ == set![RAW],
    {
        CookieFlags::option(RAW)
    }

    /// Handle `ENOENT` etc as real errors.
    pub fn error() -> (r: CookieFlags)
        ensures
            r == CookieFlags::of(ERROR),
            r@ == set![ERROR],
    {
        CookieFlags::option(ERROR)
    }

    /// Return the MIME encoding.
    pub fn mime_encoding() -> (r: CookieFlags)
        ensures
            r == CookieFlags::of(MIME_ENCODING),
            r@ == set![MIME_ENCODING],
    {
        CookieFlags::option(MIME_ENCODING)
    }

    /// Return the MIME type and encoding.
    pub fn mime() -> (r: CookieFlags)
        ensures
            r == CookieFlags::of(MIME),
            r@ == set![MIME_TYPE, MIME_ENCODING],
    {
        proof {
            lemma_mime_is_union();
        }
        CookieFlags::mime_type() | CookieFlags::mime_encoding()
    }

    /// Return the Apple creator and type.
    pub fn apple() -> (r: CookieFlags)
        ensures
            r == CookieFlags::of(APPLE),
            r@ == set![APPLE],
    {
        CookieFlags::option(APPLE)
    }

    /// Don't check for compressed files.
    pub fn no_check_compress() -> (r: CookieFlags)
        ensures
            r == CookieFlags::of(NO_CHECK_COMPRESS),
            r@ == set![NO_CHECK_COMPRESS],
    {
        CookieFlags::option(NO_CHECK_COMPRESS)
    }

    /// Don't check for tar files.
    pub fn no_check_tar() -> (r: CookieFlags)
        ensures
            r == CookieFlags::of(NO_CHECK_TAR),
            r@ == set![NO_CHECK_TAR],
    {
        CookieFlags::option(NO_CHECK_TAR)
    }

    /// Don't check magic entries.
    pub fn no_check_soft() -> (r: CookieFlags)
        ensures
            r == CookieFlags::of(NO_CHECK_SOFT),
            r@ == set![NO_CHECK_SOFT],
    {
        CookieFlags::option(NO_CHECK_SOFT)
    }

    /// Don't check application type.
    pub fn no_check_apptype() -> (r: CookieFlags)
        ensures
            r == CookieFlags::of(NO_CHECK_APPTYPE),
            r@ == set![NO_CHECK_APPTYPE],
    {
        CookieFlags::option(NO_CHECK_APPTYPE)
    }

    /// Don't check for elf details.
    pub fn no_check_elf() -> (r: CookieFlags)
        ensures
            r == CookieFlags::of(NO_CHECK_ELF),
            r@ == set![NO_CHECK_ELF],
    {
        CookieFlags::option(NO_CHECK_ELF)
    }

    /// Don't check for text files.
    pub fn no_check_text() -> (r: CookieFlags)
        ensures
            r == CookieFlags::of(NO_CHECK_TEXT),
            r@ == set![NO_CHECK_TEXT],
    {
        CookieFlags::option(NO_CHECK_TEXT)
    }

    /// Don't check for cdf files.
    pub fn no_check_cdf() -> (r: CookieFlags)
        ensures
            r == CookieFlags::of(NO_CHECK_CDF),
            r@ == set![NO_CHECK_CDF],
    {
        CookieFlags::option(NO_CHECK_CDF)
    }

    /// Don't check tokens.
    pub fn no_check_tokens() -> (r: CookieFlags)
        ensures
            r == CookieFlags::of(NO_CHECK_TOKENS),
            r@ == set![NO_CHECK_TOKENS],
    {
        CookieFlags::option(NO_CHECK_TOKENS)
    }

    /// Don't check text encodings.
    pub fn no_check_encoding() -> (r: CookieFlags)
        ensures
            r == CookieFlags::of(NO_CHECK_ENCODING),
            r@ == set![NO_CHECK_ENCODING],
    {
        CookieFlags::option(NO_CHECK_ENCODING)
    }

    /// No built-in tests; only consult the magic file.
    pub fn no_check_builtin() -> (r: CookieFlags)
        ensures
            r == CookieFlags::of(NO_CHECK_BUILTIN),
            r@ == set![
                NO_CHECK_COMPRESS,
                NO_CHECK_TAR,
                NO_CHECK_APPTYPE,
                NO_CHECK_ELF,
                NO_CHECK_TEXT,
                NO_CHECK_CDF,
                NO_CHECK_TOKENS,
                NO_CHECK_ENCODING,
            ],
    {
        proof {
            lemma_no_check_builtin_is_union();
        }
        CookieFlags::no_check_compress() | CookieFlags::no_check_tar()
            | CookieFlags::no_check_apptype() | CookieFlags::no_check_elf()
            | CookieFlags::no_check_text() | CookieFlags::no_check_cdf()
            | CookieFlags::no_check_tokens() | CookieFlags::no_check_encoding()
    }
}

impl View for CookieFlags {
    type V = Set<c_int>;

    /// The options that are on, each by its bit.
    open spec fn view(&self) -> Set<c_int> {
        Set::new(|bit: c_int| is_option(bit) && self.bits() & bit == bit)
    }
}

impl BitOr for CookieFlags {
    type Output = CookieFlags;

    /// The union of two flag sets.
    fn bitor(self, rhs: CookieFlags) -> (r: CookieFlags)
        ensures
            r.bits() == self.bits() | rhs.bits(),
            r@ == self@ + rhs@,
    {
        self.union(rhs)
    }
}

impl BitOrSpecImpl for CookieFlags {
    open spec fn obeys_bitor_spec() -> bool {
        true
    }

    open spec fn bitor_req(self, rhs: CookieFlags) -> bool {
        true
    }

    open spec fn bitor_spec(self, rhs: CookieFlags) -> CookieFlags {
        self.union(rhs)
    }
}

/// The union of the eight options that each switch off one built-in test.
pub open spec fn no_check_builtin_union() -> CookieFlags {
    CookieFlags::of(NO_CHECK_COMPRESS).union(CookieFlags::of(NO_CHECK_TAR)).union(
        CookieFlags::of(NO_CHECK_APPTYPE),
    ).union(CookieFlags::of(NO_CHECK_ELF)).union(CookieFlags::of(NO_CHECK_TEXT)).union(
        CookieFlags::of(NO_CHECK_CDF),
    ).union(CookieFlags::of(NO_CHECK_TOKENS)).union(CookieFlags::of(NO_CHECK_ENCODING))
}

proof fn lemma_option_valid(bit: c_int)
    by (bit_vector)
    requires
        is_option(bit),
    ensures
        bit & !ALL == 0,
{
}

/// The flag set made of `bits` has those bits.
pub broadcast proof fn lemma_of_bits(bits: c_int)
    ensures
        (#[trigger] CookieFlags::of(bits)).bits() == bits,
{
}

/// Union is commutative.
pub proof fn lemma_union_commutative(a: CookieFlags, b: CookieFlags)
    ensures
        a.union(b) == b.union(a),
{
    let x = a.bits();
    let y = b.bits();
    assert(x | y == y | x) by (bit_vector);
}

/// Union is idempotent.
pub proof fn lemma_union_idempotent(a: CookieFlags)
    ensures
        a.union(a) == a,
{
    let x = a.bits();
    assert(x | x == x) by (bit_vector);
}

/// Union is associative.
pub proof fn lemma_union_associative(a: CookieFlags, b: CookieFlags, c: CookieFlags)
    ensures
        a.union(b).union(c) == a.union(b.union(c)),
{
    let x = a.bits();
    let y = b.bits();
    let z = c.bits();
    assert((x | y) | z == x | (y | z)) by (bit_vector);
}

/// The empty flag set adds nothing to a union.
pub proof fn lemma_union_empty(a: CookieFlags)
    ensures
        a.union(CookieFlags::of(NONE)) == a,
        CookieFlags::of(NONE).union(a) == a,
{
    let x = a.bits();
    assert(x | NONE == x && NONE | x == x) by (bit_vector);
}

/// The union of two valid flag sets is a valid flag set.
pub proof fn lemma_union_valid(a: CookieFlags, b: CookieFlags)
    requires
        a.valid(),
        b.valid(),
    ensures
        a.union(b).valid(),
{
    let x = a.bits();
    let y = b.bits();
    assert((x | y) & !ALL == 0) by (bit_vector)
        requires
            x & !ALL == 0,
            y & !ALL == 0,
    ;
}

proof fn lemma_option_in_union(x: c_int, y: c_int, bit: c_int)
    by (bit_vector)
    requires
        is_option(bit),
    ensures
        (x | y) & bit == bit <==> x & bit == bit || y & bit == bit,
{
}

proof fn lemma_option_in_option(this: c_int, bit: c_int)
    by (bit_vector)
    requires
        is_option(this),
        is_option(bit),
    ensures
        this & bit == bit <==> this == bit,
        NONE & bit != bit,
{
}

proof fn lemma_option_in_subset(x: c_int, y: c_int, bit: c_int)
    by (bit_vector)
    requires
        x & y == y,
        y & bit == bit,
    ensures
        x & bit == bit,
{
}

proof fn lemma_options_make_up(x: c_int, y: c_int)
    by (bit_vector)
    requires
        y & !ALL == 0,
        y & DEBUG == DEBUG ==> x & DEBUG == DEBUG,
        y & SYMLINK == SYMLINK ==> x & SYMLINK == SYMLINK,
        y & COMPRESS == COMPRESS ==> x & COMPRESS == COMPRESS,
        y & DEVICES == DEVICES ==> x & DEVICES == DEVICES,
        y & MIME_TYPE == MIME_TYPE ==> x & MIME_TYPE == MIME_TYPE,
        y & CONTINUE == CONTINUE ==> x & CONTINUE == CONTINUE,
        y & CHECK == CHECK ==> x & CHECK == CHECK,
        y & PRESERVE_ATIME == PRESERVE_ATIME ==> x & PRESERVE_ATIME == PRESERVE_ATIME,
        y & RAW == RAW ==> x & RAW == RAW,
        y & ERROR == ERROR ==> x & ERROR == ERROR,
        y & MIME_ENCODING == MIME_ENCODING ==> x & MIME_ENCODING == MIME_ENCODING,
        y & APPLE == APPLE ==> x & APPLE == APPLE,
        y & NO_CHECK_COMPRESS == NO_CHECK_COMPRESS ==> x & NO_CHECK_COMPRESS == NO_CHECK_COMPRESS,
        y & NO_CHECK_TAR == NO_CHECK_TAR ==> x & NO_CHECK_TAR == NO_CHECK_TAR,
        y & NO_CHECK_SOFT == NO_CHECK_SOFT ==> x & NO_CHECK_SOFT == NO_CHECK_SOFT,
        y & NO_CHECK_APPTYPE == NO_CHECK_APPTYPE ==> x & NO_CHECK_APPTYPE == NO_CHECK_APPTYPE,
        y & NO_CHECK_ELF == NO_CHECK_ELF ==> x & NO_CHECK_ELF == NO_CHECK_ELF,
        y & NO_CHECK_TEXT == NO_CHECK_TEXT ==> x & NO_CHECK_TEXT == NO_CHECK_TEXT,
        y & NO_CHECK_CDF == NO_CHECK_CDF ==> x & NO_CHECK_CDF == NO_CHECK_CDF,
        y & NO_CHECK_TOKENS == NO_CHECK_TOKENS ==> x & NO_CHECK_TOKENS == NO_CHECK_TOKENS,
        y & NO_CHECK_ENCODING == NO_CHECK_ENCODING ==> x & NO_CHECK_ENCODING == NO_CHECK_ENCODING,
    ensures
        x & y == y,
{
}

/// The options of a union are those of either flag set.
pub proof fn lemma_union_view(a: CookieFlags, b: CookieFlags)
    ensures
        a.union(b)@ == a@ + b@,
{
    assert forall|bit: c_int| is_option(bit) implies ((a.bits() | b.bits()) & bit == bit <==> a.bits()
        & bit == bit || b.bits() & bit == bit) by {
        lemma_option_in_union(a.bits(), b.bits(), bit);
    }
    assert(a.union(b)@ =~= a@ + b@);
}

/// The flag set of one option has that option and no other.
pub proof fn lemma_option_view(option: c_int)
    requires
        is_option(option),
    ensures
        CookieFlags::of(option)@ == set![option],
{
    assert forall|bit: c_int| is_option(bit) implies (option & bit == bit <==> option == bit) by {
        lemma_option_in_option(option, bit);
    }
    assert(CookieFlags::of(option)@ =~= set![option]);
}

/// The empty flag set has no option.
pub proof fn lemma_empty_view()
    ensures
        CookieFlags::of(NONE)@ == Set::<c_int>::empty(),
{
    assert forall|bit: c_int| is_option(bit) implies NONE & bit != bit by {
        lemma_option_in_option(bit, bit);
    }
    assert(CookieFlags::of(NONE)@ =~= Set::<c_int>::empty());
}

/// A flag set holds a valid flag set exactly when it has all its options.
pub proof fn lemma_contains_view(a: CookieFlags, b: CookieFlags)
    requires
        b.valid(),
    ensures
        a.contains(b) <==> b@.subset_of(a@),
{
    if a.contains(b) {
        assert forall|bit: c_int| b@.contains(bit) implies a@.contains(bit) by {
            lemma_option_in_subset(a.bits(), b.bits(), bit);
        }
    }
    if b@.subset_of(a@) {
        assert(b@.contains(DEBUG) ==> a@.contains(DEBUG));
        assert(b@.contains(SYMLINK) ==> a@.contains(SYMLINK));
        assert(b@.contains(COMPRESS) ==> a@.contains(COMPRESS));
        assert(b@.contains(DEVICES) ==> a@.contains(DEVICES));
        assert(b@.contains(MIME_TYPE) ==> a@.contains(MIME_TYPE));
        assert(b@.contains(CONTINUE) ==> a@.contains(CONTINUE));
        assert(b@.contains(CHECK) ==> a@.contains(CHECK));
        assert(b@.contains(PRESERVE_ATIME) ==> a@.contains(PRESERVE_ATIME));
        assert(b@.contains(RAW) ==> a@.contains(RAW));
        assert(b@.contains(ERROR) ==> a@.contains(ERROR));
        assert(b@.contains(MIME_ENCODING) ==> a@.contains(MIME_ENCODING));
        assert(b@.contains(APPLE) ==> a@.contains(APPLE));
        assert(b@.contains(NO_CHECK_COMPRESS) ==> a@.contains(NO_CHECK_COMPRESS));
        assert(b@.contains(NO_CHECK_TAR) ==> a@.contains(NO_CHECK_TAR));
        assert(b@.contains(NO_CHECK_SOFT) ==> a@.contains(NO_CHECK_SOFT));
        assert(b@.contains(NO_CHECK_APPTYPE) ==> a@.contains(NO_CHECK_APPTYPE));
        assert(b@.contains(NO_CHECK_ELF) ==> a@.contains(NO_CHECK_ELF));
        assert(b@.contains(NO_CHECK_TEXT) ==> a@.contains(NO_CHECK_TEXT));
        assert(b@.contains(NO_CHECK_CDF) ==> a@.contains(NO_CHECK_CDF));
        assert(b@.contains(NO_CHECK_TOKENS) ==> a@.contains(NO_CHECK_TOKENS));
        assert(b@.contains(NO_CHECK_ENCODING) ==> a@.contains(NO_CHECK_ENCODING));
        lemma_options_make_up(a.bits(), b.bits());
    }
}

/// Valid flag sets with the same options are the same flag set.
pub proof fn lemma_view_decides(a: CookieFlags, b: CookieFlags)
    requires
        a.valid(),
        b.valid(),
        a@ == b@,
    ensures
        a == b,
{
    lemma_contains_view(a, b);
    lemma_contains_view(b, a);
    let x = a.bits();
    let y = b.bits();
    assert(x == y) by (bit_vector)
        requires
            x & y == y,
            y & x == x,
    ;
}

/// The combined MIME option is the union of the MIME type and MIME encoding
/// options: it has these two options and no other.
pub proof fn lemma_mime_is_union()
    ensures
        CookieFlags::of(MIME) == CookieFlags::of(MIME_TYPE).union(CookieFlags::of(MIME_ENCODING)),
        CookieFlags::of(MIME)@ == set![MIME_TYPE, MIME_ENCODING],
        MIME == 0x000410,
{
    assert(MIME == 0x000410) by (bit_vector);
    lemma_union_view(CookieFlags::of(MIME_TYPE), CookieFlags::of(MIME_ENCODING));
    lemma_option_view(MIME_TYPE);
    lemma_option_view(MIME_ENCODING);
    assert(set![MIME_TYPE] + set![MIME_ENCODING] =~= set![MIME_TYPE, MIME_ENCODING]);
}

/// The option that rules out every built-in test is the union of the eight
/// options that each rule out one: it has these eight options and no other.
pub proof fn lemma_no_check_builtin_is_union()
    ensures
        CookieFlags::of(NO_CHECK_BUILTIN) == no_check_builtin_union(),
        CookieFlags::of(NO_CHECK_BUILTIN)@ == set![
            NO_CHECK_COMPRESS,
            NO_CHECK_TAR,
            NO_CHECK_APPTYPE,
            NO_CHECK_ELF,
            NO_CHECK_TEXT,
            NO_CHECK_CDF,
            NO_CHECK_TOKENS,
            NO_CHECK_ENCODING,
        ],
        NO_CHECK_BUILTIN == 0x37b000,
{
    assert(NO_CHECK_BUILTIN == 0x37b000) by (bit_vector);
    let compress = CookieFlags::of(NO_CHECK_COMPRESS);
    let tar = compress.union(CookieFlags::of(NO_CHECK_TAR));
    let apptype = tar.union(CookieFlags::of(NO_CHECK_APPTYPE));
    let elf = apptype.union(CookieFlags::of(NO_CHECK_ELF));
    let text = elf.union(CookieFlags::of(NO_CHECK_TEXT));
    let cdf = text.union(CookieFlags::of(NO_CHECK_CDF));
    let tokens = cdf.union(CookieFlags::of(NO_CHECK_TOKENS));
    lemma_option_view(NO_CHECK_COMPRESS);
    lemma_option_view(NO_CHECK_TAR);
    lemma_option_view(NO_CHECK_APPTYPE);
    lemma_option_view(NO_CHECK_ELF);
    lemma_option_view(NO_CHECK_TEXT);
    lemma_option_view(NO_CHECK_CDF);
    lemma_option_view(NO_CHECK_TOKENS);
    lemma_option_view(NO_CHECK_ENCODING);
    lemma_union_view(compress, CookieFlags::of(NO_CHECK_TAR));
    lemma_union_view(tar, CookieFlags::of(NO_CHECK_APPTYPE));
    lemma_union_view(apptype, CookieFlags::of(NO_CHECK_ELF));
    lemma_union_view(elf, CookieFlags::of(NO_CHECK_TEXT));
    lemma_union_view(text, CookieFlags::of(NO_CHECK_CDF));
    lemma_union_view(cdf, CookieFlags::of(NO_CHECK_TOKENS));
    lemma_union_view(tokens, CookieFlags::of(NO_CHECK_ENCODING));
    assert(no_check_builtin_union()@ =~= set![
        NO_CHECK_COMPRESS,
        NO_CHECK_TAR,
        NO_CHECK_APPTYPE,
        NO_CHECK_ELF,
        NO_CHECK_TEXT,
        NO_CHECK_CDF,
        NO_CHECK_TOKENS,
        NO_CHECK_ENCODING,
    ]);
}

} // verus!
