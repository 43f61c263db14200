use vstd::prelude::*;

verus! {

proof fn lemma_valid_i32(a: i32, b: i32, m: i32)
    by (bit_vector)
    ensures
        a & !m == 0 ==> (a & b) & !m == 0,
        a & !m == 0 ==> (a & !b) & !m == 0,
        a & !m == 0 && b & !m == 0 ==> (a | b) & !m == 0,
        (b & m) & !m == 0,
        0 & !m == 0,
        m & !m == 0,
{
}

proof fn lemma_valid_u32(a: u32, b: u32, m: u32)
    by (bit_vector)
    ensures
        a & !m == 0 ==> (a & b) & !m == 0,
        a & !m == 0 ==> (a & !b) & !m == 0,
        a & !m == 0 && b & !m == 0 ==> (a | b) & !m == 0,
        (b & m) & !m == 0,
        0 & !m == 0,
        m & !m == 0,
{
}

/// Every bit that a value of [`OFlag`] may hold.
pub const O_FLAG_ALL: i32 = 0x7f7fc3;

/// Flags for opening a file (`open`, `pipe2`).
///
/// A value holds only bits of `O_FLAG_ALL`.
#[derive(Clone, Copy, Debug, PartialEq, Eq, Structural)]
pub struct OFlag {
    bits: i32,
}

impl View for OFlag {
    type V = i32;

    closed spec fn view(&self) -> i32 {
        self.bits
    }
}

/// Whether raw bits are all defined for [`OFlag`].
pub open spec fn o_flag_valid(b: i32) -> bool {
    b & !O_FLAG_ALL == 0
}

/// The value that `OFlag::from_bits` gives for raw bits.
pub closed spec fn o_flag_from_bits(b: i32) -> Option<OFlag> {
    if o_flag_valid(b) {
        Some(OFlag { bits: b })
    } else {
        None
    }
}

/// Raw bits that are all defined come back unchanged from a round trip through [`OFlag`].
pub proof fn o_flag_bits_round_trip(b: i32)
    requires
        o_flag_valid(b),
    ensures
        o_flag_from_bits(b) is Some,
        o_flag_from_bits(b).unwrap()@ == b,
{
}

proof fn o_flag_named_valid()
    ensures
        o_flag_valid((3) as i32),
        o_flag_valid((0) as i32),
        o_flag_valid((1) as i32),
        o_flag_valid((2) as i32),
        o_flag_valid((0o100) as i32),
        o_flag_valid((0o200) as i32),
        o_flag_valid((0o400) as i32),
        o_flag_valid((0o1000) as i32),
        o_flag_valid((0o2000) as i32),
        o_flag_valid((0o4000) as i32),
        o_flag_valid((0o10000) as i32),
        o_flag_valid((0o20000) as i32),
        o_flag_valid((0o40000) as i32),
        o_flag_valid((0o200000) as i32),
        o_flag_valid((0o400000) as i32),
        o_flag_valid((0o1000000) as i32),
        o_flag_valid((0o2000000) as i32),
        o_flag_valid((0o4010000) as i32),
        o_flag_valid((0o10000000) as i32),
        o_flag_valid((0o20200000) as i32),
{
    assert(o_flag_valid((3) as i32) && o_flag_valid((0) as i32) && o_flag_valid((1) as i32) && o_flag_valid((2) as i32) && o_flag_valid((0o100) as i32) && o_flag_valid((0o200) as i32) && o_flag_valid((0o400) as i32) && o_flag_valid((0o1000) as i32) && o_flag_valid((0o2000) as i32) && o_flag_valid((0o4000) as i32) && o_flag_valid((0o10000) as i32) && o_flag_valid((0o20000) as i32) && o_flag_valid((0o40000) as i32) && o_flag_valid((0o200000) as i32) && o_flag_valid((0o400000) as i32) && o_flag_valid((0o1000000) as i32) && o_flag_valid((0o2000000) as i32) && o_flag_valid((0o4010000) as i32) && o_flag_valid((0o10000000) as i32) && o_flag_valid((0o20200000) as i32)) by (bit_vector);
}

/// A set of flags comes back as itself from a round trip through its raw bits.
pub proof fn o_flag_from_own_bits(f: OFlag)
    requires
        o_flag_valid(f@),
    ensures
        o_flag_from_bits(f@) == Some(f),
{
}

impl OFlag {
    #[verifier::type_invariant]
    spec fn inv(self) -> bool {
        o_flag_valid(self.bits)
    }

    #[allow(non_snake_case)]
    pub fn O_ACCMODE() -> (r: OFlag)
        ensures
            r@ == 3,
            o_flag_valid(r@),
    {
        proof {
            o_flag_named_valid();
        }
        OFlag { bits: 3 }
    }

    #[allow(non_snake_case)]
    pub fn O_RDONLY() -> (r: OFlag)
        ensures
            r@ == 0,
            o_flag_valid(r@),
    {
        proof {
            o_flag_named_valid();
        }
        OFlag { bits: 0 }
    }

    #[allow(non_snake_case)]
    pub fn O_WRONLY() -> (r: OFlag)
        ensures
            r@ == 1,
            o_flag_valid(r@),
    {
        proof {
            o_flag_named_valid();
        }
        OFlag { bits: 1 }
    }

    #[allow(non_snake_case)]
    pub fn O_RDWR() -> (r: OFlag)
        ensures
            r@ == 2,
            o_flag_valid(r@),
    {
        proof {
            o_flag_named_valid();
        }
        OFlag { bits: 2 }
    }

    #[allow(non_snake_case)]
    pub fn O_CREAT() -> (r: OFlag)
        ensures
            r@ == 0o100,
            o_flag_valid(r@),
    {
        proof {
            o_flag_named_valid();
        }
        OFlag { bits: 0o100 }
    }

    #[allow(non_snake_case)]
    pub fn O_EXCL() -> (r: OFlag)
        ensures
            r@ == 0o200,
            o_flag_valid(r@),
    {
        proof {
            o_flag_named_valid();
        }
        OFlag { bits: 0o200 }
    }

    #[allow(non_snake_case)]
    pub fn O_NOCTTY() -> (r: OFlag)
        ensures
            r@ == 0o400,
            o_flag_valid(r@),
    {
        proof {
            o_flag_named_valid();
        }
        OFlag { bits: 0o400 }
    }

    #[allow(non_snake_case)]
    pub fn O_TRUNC() -> (r: OFlag)
        ensures
            r@ == 0o1000,
            o_flag_valid(r@),
    {
        proof {
            o_flag_named_valid();
        }
        OFlag { bits: 0o1000 }
    }

    #[allow(non_snake_case)]
    pub fn O_APPEND() -> (r: OFlag)
        ensures
            r@ == 0o2000,
            o_flag_valid(r@),
    {
        proof {
            o_flag_named_valid();
        }
        OFlag { bits: 0o2000 }
    }

    #[allow(non_snake_case)]
    pub fn O_NONBLOCK() -> (r: OFlag)
        ensures
            r@ == 0o4000,
            o_flag_valid(r@),
    {
        proof {
            o_flag_named_valid();
        }
        OFlag { bits: 0o4000 }
    }

    #[allow(non_snake_case)]
    pub fn O_DSYNC() -> (r: OFlag)
        ensures
            r@ == 0o10000,
            o_flag_valid(r@),
    {
        proof {
            o_flag_named_valid();
        }
        OFlag { bits: 0o10000 }
    }

    #[allow(non_snake_case)]
    pub fn O_ASYNC() -> (r: OFlag)
        ensures
            r@ == 0o20000,
            o_flag_valid(r@),
    {
        proof {
            o_flag_named_valid();
        }
        OFlag { bits: 0o20000 }
    }

    #[allow(non_snake_case)]
    pub fn O_DIRECT() -> (r: OFlag)
        ensures
            r@ == 0o40000,
            o_flag_valid(r@),
    {
        proof {
            o_flag_named_valid();
        }
        OFlag { bits: 0o40000 }
    }

    #[allow(non_snake_case)]
    pub fn O_DIRECTORY() -> (r: OFlag)
        ensures
            r@ == 0o200000,
            o_flag_valid(r@),
    {
        proof {
            o_flag_named_valid();
        }
        OFlag { bits: 0o200000 }
    }

    #[allow(non_snake_case)]
    pub fn O_NOFOLLOW() -> (r: OFlag)
        ensures
            r@ == 0o400000,
            o_flag_valid(r@),
    {
        proof {
            o_flag_named_valid();
        }
        OFlag { bits: 0o400000 }
    }

    #[allow(non_snake_case)]
    pub fn O_NOATIME() -> (r: OFlag)
        ensures
            r@ == 0o1000000,
            o_flag_valid(r@),
    {
        proof {
            o_flag_named_valid();
        }
        OFlag { bits: 0o1000000 }
    }

    #[allow(non_snake_case)]
    pub fn O_CLOEXEC() -> (r: OFlag)
        ensures
            r@ == 0o2000000,
            o_flag_valid(r@),
    {
        proof {
            o_flag_named_valid();
        }
        OFlag { bits: 0o2000000 }
    }

    #[allow(non_snake_case)]
    pub fn O_SYNC() -> (r: OFlag)
        ensures
            r@ == 0o4010000,
            o_flag_valid(r@),
    {
        proof {
            o_flag_named_valid();
        }
        OFlag { bits: 0o4010000 }
    }

    #[allow(non_snake_case)]
    pub fn O_PATH() -> (r: OFlag)
        ensures
            r@ == 0o10000000,
            o_flag_valid(r@),
    {
        proof {
            o_flag_named_valid();
        }
        OFlag { bits: 0o10000000 }
    }

    #[allow(non_snake_case)]
    pub fn O_TMPFILE() -> (r: OFlag)
        ensures
            r@ == 0o20200000,
            o_flag_valid(r@),
    {
        proof {
            o_flag_named_valid();
        }
        OFlag { bits: 0o20200000 }
    }

    /// The set with no flag.
    pub closed spec fn spec_empty() -> OFlag {
        OFlag { bits: 0 }
    }

    /// The set with no flag.
    pub fn empty() -> (r: OFlag)
        ensures
            r == OFlag::spec_empty(),
            r@ == 0,
            o_flag_valid(r@),
    {
        proof {
            lemma_valid_i32(0, 0, O_FLAG_ALL);
        }
        OFlag { bits: 0 }
    }

    /// The set of every defined flag.
    pub fn all() -> (r: OFlag)
        ensures
            r@ == O_FLAG_ALL,
            o_flag_valid(r@),
    {
        proof {
            lemma_valid_i32(0, 0, O_FLAG_ALL);
        }
        OFlag { bits: O_FLAG_ALL }
    }

    /// The raw bits.
    pub fn bits(&self) -> (r: i32)
        ensures
            r == self@,
            o_flag_valid(r),
    {
        proof {
            use_type_invariant(self);
        }
        self.bits
    }

    /// The set of raw bits, or `None` where one of them is not defined.
    pub fn from_bits(b: i32) -> (r: Option<OFlag>)
        ensures
            r == o_flag_from_bits(b),
            r is Some <==> o_flag_valid(b),
            r is Some ==> r.unwrap()@ == b && o_flag_valid(r.unwrap()@),
    {
        if b & !O_FLAG_ALL == 0 {
            Some(OFlag { bits: b })
        } else {
            None
        }
    }

    /// The set of raw bits, with the bits that are not defined dropped.
    pub fn from_bits_truncate(b: i32) -> (r: OFlag)
        ensures
            r@ == b & O_FLAG_ALL,
            o_flag_valid(r@),
    {
        let v: i32 = b & O_FLAG_ALL;
        proof {
            lemma_valid_i32(0, b, O_FLAG_ALL);
        }
        OFlag { bits: v }
    }

    /// Whether no flag is set.
    pub fn is_empty(&self) -> (r: bool)
        ensures
            r == (self@ == 0),
    {
        self.bits == 0
    }

    /// Whether every flag of `other` is set here.
    pub fn contains(&self, other: OFlag) -> (r: bool)
        ensures
            r == (self@ & other@ == other@),
    {
        self.bits & other.bits == other.bits
    }

    /// Whether some flag is set both here and in `other`.
    pub fn intersects(&self, other: OFlag) -> (r: bool)
        ensures
            r == (self@ & other@ != 0),
    {
        self.bits & other.bits != 0
    }

    /// The flags set here or in `other`.
    pub fn union(self, other: OFlag) -> (r: OFlag)
        ensures
            r@ == self@ | other@,
            o_flag_valid(r@),
    {
        proof {
            use_type_invariant(&self);
            use_type_invariant(&other);
        }
        let a: i32 = self.bits;
        let b: i32 = other.bits;
        let v: i32 = a | b;
        proof {
            lemma_valid_i32(a, b, O_FLAG_ALL);
        }
        OFlag { bits: v }
    }

    /// The flags set both here and in `other`.
    pub fn intersection(self, other: OFlag) -> (r: OFlag)
        ensures
            r@ == self@ & other@,
            o_flag_valid(r@),
    {
        proof {
            use_type_invariant(&self);
        }
        let a: i32 = self.bits;
        let b: i32 = other.bits;
        let v: i32 = a & b;
        proof {
            lemma_valid_i32(a, b, O_FLAG_ALL);
        }
        OFlag { bits: v }
    }

    /// The flags set here and not in `other`.
    pub fn difference(self, other: OFlag) -> (r: OFlag)
        ensures
            r@ == self@ & !other@,
            o_flag_valid(r@),
    {
        proof {
            use_type_invariant(&self);
        }
        let a: i32 = self.bits;
        let b: i32 = other.bits;
        let v: i32 = a & !b;
        proof {
            lemma_valid_i32(a, b, O_FLAG_ALL);
        }
        OFlag { bits: v }
    }

    /// Sets the flags of `other`.
    pub fn insert(&mut self, other: OFlag)
        ensures
            final(self)@ == old(self)@ | other@,
            o_flag_valid(final(self)@),
    {
        *self = self.union(other);
    }

    /// Clears the flags of `other`.
    pub fn remove(&mut self, other: OFlag)
        ensures
            final(self)@ == old(self)@ & !other@,
            o_flag_valid(final(self)@),
    {
        *self = self.difference(other);
    }
}

/// Every bit that a value of [`AccessMode`] may hold.
pub const ACCESS_MODE_ALL: i32 = 0x7;

/// Permissions asked of `access` and `faccessat`.
///
/// A value holds only bits of `ACCESS_MODE_ALL`.
#[derive(Clone, Copy, Debug, PartialEq, Eq, Structural)]
pub struct AccessMode {
    bits: i32,
}

impl View for AccessMode {
    type V = i32;

    closed spec fn view(&self) -> i32 {
        self.bits
    }
}

/// Whether raw bits are all defined for [`AccessMode`].
pub open spec fn access_mode_valid(b: i32) -> bool {
    b & !ACCESS_MODE_ALL == 0
}

/// The value that `AccessMode::from_bits` gives for raw bits.
pub closed spec fn access_mode_from_bits(b: i32) -> Option<AccessMode> {
    if access_mode_valid(b) {
        Some(AccessMode { bits: b })
    } else {
        None
    }
}

/// Raw bits that are all defined come back unchanged from a round trip through [`AccessMode`].
pub proof fn access_mode_bits_round_trip(b: i32)
    requires
        access_mode_valid(b),
    ensures
        access_mode_from_bits(b) is Some,
        access_mode_from_bits(b).unwrap()@ == b,
{
}

proof fn access_mode_named_valid()
    ensures
        access_mode_valid((0) as i32),
        access_mode_valid((4) as i32),
        access_mode_valid((2) as i32),
        access_mode_valid((1) as i32),
{
    assert(access_mode_valid((0) as i32) && access_mode_valid((4) as i32) && access_mode_valid((2) as i32) && access_mode_valid((1) as i32)) by (bit_vector);
}

/// A set of flags comes back as itself from a round trip through its raw bits.
pub proof fn access_mode_from_own_bits(f: AccessMode)
    requires
        access_mode_valid(f@),
    ensures
        access_mode_from_bits(f@) == Some(f),
{
}

impl AccessMode {
    #[verifier::type_invariant]
    spec fn inv(self) -> bool {
        access_mode_valid(self.bits)
    }

    #[allow(non_snake_case)]
    pub fn F_OK() -> (r: AccessMode)
        ensures
            r@ == 0,
            access_mode_valid(r@),
    {
        proof {
            access_mode_named_valid();
        }
        AccessMode { bits: 0 }
    }

    #[allow(non_snake_case)]
    pub fn R_OK() -> (r: AccessMode)
        ensures
            r@ == 4,
            access_mode_valid(r@),
    {
        proof {
            access_mode_named_valid();
        }
        AccessMode { bits: 4 }
    }

    #[allow(non_snake_case)]
    pub fn W_OK() -> (r: AccessMode)
        ensures
            r@ == 2,
            access_mode_valid(r@),
    {
        proof {
            access_mode_named_valid();
        }
        AccessMode { bits: 2 }
    }

    #[allow(non_snake_case)]
    pub fn X_OK() -> (r: AccessMode)
        ensures
            r@ == 1,
            access_mode_valid(r@),
    {
        proof {
            access_mode_named_valid();
        }
        AccessMode { bits: 1 }
    }

    /// The set with no flag.
    pub closed spec fn spec_empty() -> AccessMode {
        AccessMode { bits: 0 }
    }

    /// The set with no flag.
    pub fn empty() -> (r: AccessMode)
        ensures
            r == AccessMode::spec_empty(),
            r@ == 0,
            access_mode_valid(r@),
    {
        proof {
            lemma_valid_i32(0, 0, ACCESS_MODE_ALL);
        }
        AccessMode { bits: 0 }
    }

    /// The set of every defined flag.
    pub fn all() -> (r: AccessMode)
        ensures
            r@ == ACCESS_MODE_ALL,
            access_mode_valid(r@),
    {
        proof {
            lemma_valid_i32(0, 0, ACCESS_MODE_ALL);
        }
        AccessMode { bits: ACCESS_MODE_ALL }
    }

    /// The raw bits.
    pub fn bits(&self) -> (r: i32)
        ensures
            r == self@,
            access_mode_valid(r),
    {
        proof {
            use_type_invariant(self);
        }
        self.bits
    }

    /// The set of raw bits, or `None` where one of them is not defined.
    pub fn from_bits(b: i32) -> (r: Option<AccessMode>)
        ensures
            r == access_mode_from_bits(b),
            r is Some <==> access_mode_valid(b),
            r is Some ==> r.unwrap()@ == b && access_mode_valid(r.unwrap()@),
    {
        if b & !ACCESS_MODE_ALL == 0 {
            Some(AccessMode { bits: b })
        } else {
            None
        }
    }

    /// The set of raw bits, with the bits that are not defined dropped.
    pub fn from_bits_truncate(b: i32) -> (r: AccessMode)
        ensures
            r@ == b & ACCESS_MODE_ALL,
            access_mode_valid(r@),
    {
        let v: i32 = b & ACCESS_MODE_ALL;
        proof {
            lemma_valid_i32(0, b, ACCESS_MODE_ALL);
        }
        AccessMode { bits: v }
    }

    /// Whether no flag is set.
    pub fn is_empty(&self) -> (r: bool)
        ensures
            r == (self@ == 0),
    {
        self.bits == 0
    }

    /// Whether every flag of `other` is set here.
    pub fn contains(&self, other: AccessMode) -> (r: bool)
        ensures
            r == (self@ & other@ == other@),
    {
        self.bits & other.bits == other.bits
    }

    /// Whether some flag is set both here and in `other`.
    pub fn intersects(&self, other: AccessMode) -> (r: bool)
        ensures
            r == (self@ & other@ != 0),
    {
        self.bits & other.bits != 0
    }

    /// The flags set here or in `other`.
    pub fn union(self, other: AccessMode) -> (r: AccessMode)
        ensures
            r@ == self@ | other@,
            access_mode_valid(r@),
    {
        proof {
            use_type_invariant(&self);
            use_type_invariant(&other);
        }
        let a: i32 = self.bits;
        let b: i32 = other.bits;
        let v: i32 = a | b;
        proof {
            lemma_valid_i32(a, b, ACCESS_MODE_ALL);
        }
        AccessMode { bits: v }
    }

    /// The flags set both here and in `other`.
    pub fn intersection(self, other: AccessMode) -> (r: AccessMode)
        ensures
            r@ == self@ & other@,
            access_mode_valid(r@),
    {
        proof {
            use_type_invariant(&self);
        }
        let a: i32 = self.bits;
        let b: i32 = other.bits;
        let v: i32 = a & b;
        proof {
            lemma_valid_i32(a, b, ACCESS_MODE_ALL);
        }
        AccessMode { bits: v }
    }

    /// The flags set here and not in `other`.
    pub fn difference(self, other: AccessMode) -> (r: AccessMode)
        ensures
            r@ == self@ & !other@,
            access_mode_valid(r@),
    {
        proof {
            use_type_invariant(&self);
        }
        let a: i32 = self.bits;
        let b: i32 = other.bits;
        let v: i32 = a & !b;
        proof {
            lemma_valid_i32(a, b, ACCESS_MODE_ALL);
        }
        AccessMode { bits: v }
    }

    /// Sets the flags of `other`.
    pub fn insert(&mut self, other: AccessMode)
        ensures
            final(self)@ == old(self)@ | other@,
            access_mode_valid(final(self)@),
    {
        *self = self.union(other);
    }

    /// Clears the flags of `other`.
    pub fn remove(&mut self, other: AccessMode)
        ensures
            final(self)@ == old(self)@ & !other@,
            access_mode_valid(final(self)@),
    {
        *self = self.difference(other);
    }
}

/// Every bit that a value of [`AtFlags`] may hold.
pub const AT_FLAGS_ALL: i32 = 0x1f00;

/// Flags of the operations relative to a directory descriptor.
///
/// A value holds only bits of `AT_FLAGS_ALL`.
#[derive(Clone, Copy, Debug, PartialEq, Eq, Structural)]
pub struct AtFlags {
    bits: i32,
}

impl View for AtFlags {
    type V = i32;

    closed spec fn view(&self) -> i32 {
        self.bits
    }
}

/// Whether raw bits are all defined for [`AtFlags`].
pub open spec fn at_flags_valid(b: i32) -> bool {
    b & !AT_FLAGS_ALL == 0
}

/// The value that `AtFlags::from_bits` gives for raw bits.
pub closed spec fn at_flags_from_bits(b: i32) -> Option<AtFlags> {
    if at_flags_valid(b) {
        Some(AtFlags { bits: b })
    } else {
        None
    }
}

/// Raw bits that are all defined come back unchanged from a round trip through [`AtFlags`].
pub proof fn at_flags_bits_round_trip(b: i32)
    requires
        at_flags_valid(b),
    ensures
        at_flags_from_bits(b) is Some,
        at_flags_from_bits(b).unwrap()@ == b,
{
}

proof fn at_flags_named_valid()
    ensures
        at_flags_valid((0x100) as i32),
        at_flags_valid((0x200) as i32),
        at_flags_valid((0x400) as i32),
        at_flags_valid((0x800) as i32),
        at_flags_valid((0x1000) as i32),
{
    assert(at_flags_valid((0x100) as i32) && at_flags_valid((0x200) as i32) && at_flags_valid((0x400) as i32) && at_flags_valid((0x800) as i32) && at_flags_valid((0x1000) as i32)) by (bit_vector);
}

/// A set of flags comes back as itself from a round trip through its raw bits.
pub proof fn at_flags_from_own_bits(f: AtFlags)
    requires
        at_flags_valid(f@),
    ensures
        at_flags_from_bits(f@) == Some(f),
{
}

impl AtFlags {
    #[verifier::type_invariant]
    spec fn inv(self) -> bool {
        at_flags_valid(self.bits)
    }

    #[allow(non_snake_case)]
    pub fn AT_SYMLINK_NOFOLLOW() -> (r: AtFlags)
        ensures
            r@ == 0x100,
            at_flags_valid(r@),
    {
        proof {
            at_flags_named_valid();
        }
        AtFlags { bits: 0x100 }
    }

    #[allow(non_snake_case)]
    pub fn AT_REMOVEDIR() -> (r: AtFlags)
        ensures
            r@ == 0x200,
            at_flags_valid(r@),
    {
        proof {
            at_flags_named_valid();
        }
        AtFlags { bits: 0x200 }
    }

    #[allow(non_snake_case)]
    pub fn AT_SYMLINK_FOLLOW() -> (r: AtFlags)
        ensures
            r@ == 0x400,
            at_flags_valid(r@),
    {
        proof {
            at_flags_named_valid();
        }
        AtFlags { bits: 0x400 }
    }

    #[allow(non_snake_case)]
    pub fn AT_NO_AUTOMOUNT() -> (r: AtFlags)
        ensures
            r@ == 0x800,
            at_flags_valid(r@),
    {
        proof {
            at_flags_named_valid();
        }
        AtFlags { bits: 0x800 }
    }

    #[allow(non_snake_case)]
    pub fn AT_EMPTY_PATH() -> (r: AtFlags)
        ensures
            r@ == 0x1000,
            at_flags_valid(r@),
    {
        proof {
            at_flags_named_valid();
        }
        AtFlags { bits: 0x1000 }
    }

    /// The set with no flag.
    pub closed spec fn spec_empty() -> AtFlags {
        AtFlags { bits: 0 }
    }

    /// The set with no flag.
    pub fn empty() -> (r: AtFlags)
        ensures
            r == AtFlags::spec_empty(),
            r@ == 0,
            at_flags_valid(r@),
    {
        proof {
            lemma_valid_i32(0, 0, AT_FLAGS_ALL);
        }
        AtFlags { bits: 0 }
    }

    /// The set of every defined flag.
    pub fn all() -> (r: AtFlags)
        ensures
            r@ == AT_FLAGS_ALL,
            at_flags_valid(r@),
    {
        proof {
            lemma_valid_i32(0, 0, AT_FLAGS_ALL);
        }
        AtFlags { bits: AT_FLAGS_ALL }
    }

    /// The raw bits.
    pub fn bits(&self) -> (r: i32)
        ensures
            r == self@,
            at_flags_valid(r),
    {
        proof {
            use_type_invariant(self);
        }
        self.bits
    }

    /// The set of raw bits, or `None` where one of them is not defined.
    pub fn from_bits(b: i32) -> (r: Option<AtFlags>)
        ensures
            r == at_flags_from_bits(b),
            r is Some <==> at_flags_valid(b),
            r is Some ==> r.unwrap()@ == b && at_flags_valid(r.unwrap()@),
    {
        if b & !AT_FLAGS_ALL == 0 {
            Some(AtFlags { bits: b })
        } else {
            None
        }
    }

    /// The set of raw bits, with the bits that are not defined dropped.
    pub fn from_bits_truncate(b: i32) -> (r: AtFlags)
        ensures
            r@ == b & AT_FLAGS_ALL,
            at_flags_valid(r@),
    {
        let v: i32 = b & AT_FLAGS_ALL;
        proof {
            lemma_valid_i32(0, b, AT_FLAGS_ALL);
        }
        AtFlags { bits: v }
    }

    /// Whether no flag is set.
    pub fn is_empty(&self) -> (r: bool)
        ensures
            r == (self@ == 0),
    {
        self.bits == 0
    }

    /// Whether every flag of `other` is set here.
    pub fn contains(&self, other: AtFlags) -> (r: bool)
        ensures
            r == (self@ & other@ == other@),
    {
        self.bits & other.bits == other.bits
    }

    /// Whether some flag is set both here and in `other`.
    pub fn intersects(&self, other: AtFlags) -> (r: bool)
        ensures
            r == (self@ & other@ != 0),
    {
        self.bits & other.bits != 0
    }

    /// The flags set here or in `other`.
    pub fn union(self, other: AtFlags) -> (r: AtFlags)
        ensures
            r@ == self@ | other@,
            at_flags_valid(r@),
    {
        proof {
            use_type_invariant(&self);
            use_type_invariant(&other);
        }
        let a: i32 = self.bits;
        let b: i32 = other.bits;
        let v: i32 = a | b;
        proof {
            lemma_valid_i32(a, b, AT_FLAGS_ALL);
        }
        AtFlags { bits: v }
    }

    /// The flags set both here and in `other`.
    pub fn intersection(self, other: AtFlags) -> (r: AtFlags)
        ensures
            r@ == self@ & other@,
            at_flags_valid(r@),
    {
        proof {
            use_type_invariant(&self);
        }
        let a: i32 = self.bits;
        let b: i32 = other.bits;
        let v: i32 = a & b;
        proof {
            lemma_valid_i32(a, b, AT_FLAGS_ALL);
        }
        AtFlags { bits: v }
    }

    /// The flags set here and not in `other`.
    pub fn difference(self, other: AtFlags) -> (r: AtFlags)
        ensures
            r@ == self@ & !other@,
            at_flags_valid(r@),
    {
        proof {
            use_type_invariant(&self);
        }
        let a: i32 = self.bits;
        let b: i32 = other.bits;
        let v: i32 = a & !b;
        proof {
            lemma_valid_i32(a, b, AT_FLAGS_ALL);
        }
        AtFlags { bits: v }
    }

    /// Sets the flags of `other`.
    pub fn insert(&mut self, other: AtFlags)
        ensures
            final(self)@ == old(self)@ | other@,
            at_flags_valid(final(self)@),
    {
        *self = self.union(other);
    }

    /// Clears the flags of `other`.
    pub fn remove(&mut self, other: AtFlags)
        ensures
            final(self)@ == old(self)@ & !other@,
            at_flags_valid(final(self)@),
    {
        *self = self.difference(other);
    }
}

/// Every bit that a value of [`SaFlags`] may hold.
pub const SA_FLAGS_ALL: i32 = -671088633;

/// Behaviour flags of a signal action.
///
/// A value holds only bits of `SA_FLAGS_ALL`.
#[derive(Clone, Copy, Debug, PartialEq, Eq, Structural)]
pub struct SaFlags {
    bits: i32,
}

impl View for SaFlags {
    type V = i32;

    closed spec fn view(&self) -> i32 {
        self.bits
    }
}

/// Whether raw bits are all defined for [`SaFlags`].
pub open spec fn sa_flags_valid(b: i32) -> bool {
    b & !SA_FLAGS_ALL == 0
}

/// The value that `SaFlags::from_bits` gives for raw bits.
pub closed spec fn sa_flags_from_bits(b: i32) -> Option<SaFlags> {
    if sa_flags_valid(b) {
        Some(SaFlags { bits: b })
    } else {
        None
    }
}

/// Raw bits that are all defined come back unchanged from a round trip through [`SaFlags`].
pub proof fn sa_flags_bits_round_trip(b: i32)
    requires
        sa_flags_valid(b),
    ensures
        sa_flags_from_bits(b) is Some,
        sa_flags_from_bits(b).unwrap()@ == b,
{
}

proof fn sa_flags_named_valid()
    ensures
        sa_flags_valid((0x1) as i32),
        sa_flags_valid((0x2) as i32),
        sa_flags_valid((0x4) as i32),
        sa_flags_valid((0x0800_0000) as i32),
        sa_flags_valid((0x1000_0000) as i32),
        sa_flags_valid((0x4000_0000) as i32),
        sa_flags_valid((-0x8000_0000) as i32),
{
    assert(sa_flags_valid((0x1) as i32) && sa_flags_valid((0x2) as i32) && sa_flags_valid((0x4) as i32) && sa_flags_valid((0x0800_0000) as i32) && sa_flags_valid((0x1000_0000) as i32) && sa_flags_valid((0x4000_0000) as i32) && sa_flags_valid((-0x8000_0000) as i32)) by (bit_vector);
}

/// A set of flags comes back as itself from a round trip through its raw bits.
pub proof fn sa_flags_from_own_bits(f: SaFlags)
    requires
        sa_flags_valid(f@),
    ensures
        sa_flags_from_bits(f@) == Some(f),
{
}

impl SaFlags {
    #[verifier::type_invariant]
    spec fn inv(self) -> bool {
        sa_flags_valid(self.bits)
    }

    #[allow(non_snake_case)]
    pub fn SA_NOCLDSTOP() -> (r: SaFlags)
        ensures
            r@ == 0x1,
            sa_flags_valid(r@),
    {
        proof {
            sa_flags_named_valid();
        }
        SaFlags { bits: 0x1 }
    }

    #[allow(non_snake_case)]
    pub fn SA_NOCLDWAIT() -> (r: SaFlags)
        ensures
            r@ == 0x2,
            sa_flags_valid(r@),
    {
        proof {
            sa_flags_named_valid();
        }
        SaFlags { bits: 0x2 }
    }

    #[allow(non_snake_case)]
    pub fn SA_SIGINFO() -> (r: SaFlags)
        ensures
            r@ == 0x4,
            sa_flags_valid(r@),
    {
        proof {
            sa_flags_named_valid();
        }
        SaFlags { bits: 0x4 }
    }

    #[allow(non_snake_case)]
    pub fn SA_ONSTACK() -> (r: SaFlags)
        ensures
            r@ == 0x0800_0000,
            sa_flags_valid(r@),
    {
        proof {
            sa_flags_named_valid();
        }
        SaFlags { bits: 0x0800_0000 }
    }

    #[allow(non_snake_case)]
    pub fn SA_RESTART() -> (r: SaFlags)
        ensures
            r@ == 0x1000_0000,
            sa_flags_valid(r@),
    {
        proof {
            sa_flags_named_valid();
        }
        SaFlags { bits: 0x1000_0000 }
    }

    #[allow(non_snake_case)]
    pub fn SA_NODEFER() -> (r: SaFlags)
        ensures
            r@ == 0x4000_0000,
            sa_flags_valid(r@),
    {
        proof {
            sa_flags_named_valid();
        }
        SaFlags { bits: 0x4000_0000 }
    }

    #[allow(non_snake_case)]
    pub fn SA_RESETHAND() -> (r: SaFlags)
        ensures
            r@ == -0x8000_0000,
            sa_flags_valid(r@),
    {
        proof {
            sa_flags_named_valid();
        }
        SaFlags { bits: -0x8000_0000 }
    }

    /// The set with no flag.
    pub closed spec fn spec_empty() -> SaFlags {
        SaFlags { bits: 0 }
    }

    /// The set with no flag.
    pub fn empty() -> (r: SaFlags)
        ensures
            r == SaFlags::spec_empty(),
            r@ == 0,
            sa_flags_valid(r@),
    {
        proof {
            lemma_valid_i32(0, 0, SA_FLAGS_ALL);
        }
        SaFlags { bits: 0 }
    }

    /// The set of every defined flag.
    pub fn all() -> (r: SaFlags)
        ensures
            r@ == SA_FLAGS_ALL,
            sa_flags_valid(r@),
    {
        proof {
            lemma_valid_i32(0, 0, SA_FLAGS_ALL);
        }
        SaFlags { bits: SA_FLAGS_ALL }
    }

    /// The raw bits.
    pub fn bits(&self) -> (r: i32)
        ensures
            r == self@,
            sa_flags_valid(r),
    {
        proof {
            use_type_invariant(self);
        }
        self.bits
    }

    /// The set of raw bits, or `None` where one of them is not defined.
    pub fn from_bits(b: i32) -> (r: Option<SaFlags>)
        ensures
            r == sa_flags_from_bits(b),
            r is Some <==> sa_flags_valid(b),
            r is Some ==> r.unwrap()@ == b && sa_flags_valid(r.unwrap()@),
    {
        if b & !SA_FLAGS_ALL == 0 {
            Some(SaFlags { bits: b })
        } else {
            None
        }
    }

    /// The set of raw bits, with the bits that are not defined dropped.
    pub fn from_bits_truncate(b: i32) -> (r: SaFlags)
        ensures
            r@ == b & SA_FLAGS_ALL,
            sa_flags_valid(r@),
    {
        let v: i32 = b & SA_FLAGS_ALL;
        proof {
            lemma_valid_i32(0, b, SA_FLAGS_ALL);
        }
        SaFlags { bits: v }
    }

    /// Whether no flag is set.
    pub fn is_empty(&self) -> (r: bool)
        ensures
            r == (self@ == 0),
    {
        self.bits == 0
    }

    /// Whether every flag of `other` is set here.
    pub fn contains(&self, other: SaFlags) -> (r: bool)
        ensures
            r == (self@ & other@ == other@),
    {
        self.bits & other.bits == other.bits
    }

    /// Whether some flag is set both here and in `other`.
    pub fn intersects(&self, other: SaFlags) -> (r: bool)
        ensures
            r == (self@ & other@ != 0),
    {
        self.bits & other.bits != 0
    }

    /// The flags set here or in `other`.
    pub fn union(self, other: SaFlags) -> (r: SaFlags)
        ensures
            r@ == self@ | other@,
            sa_flags_valid(r@),
    {
        proof {
            use_type_invariant(&self);
            use_type_invariant(&other);
        }
        let a: i32 = self.bits;
        let b: i32 = other.bits;
        let v: i32 = a | b;
        proof {
            lemma_valid_i32(a, b, SA_FLAGS_ALL);
        }
        SaFlags { bits: v }
    }

    /// The flags set both here and in `other`.
    pub fn intersection(self, other: SaFlags) -> (r: SaFlags)
        ensures
            r@ == self@ & other@,
            sa_flags_valid(r@),
    {
        proof {
            use_type_invariant(&self);
        }
        let a: i32 = self.bits;
        let b: i32 = other.bits;
        let v: i32 = a & b;
        proof {
            lemma_valid_i32(a, b, SA_FLAGS_ALL);
        }
        SaFlags { bits: v }
    }

    /// The flags set here and not in `other`.
    pub fn difference(self, other: SaFlags) -> (r: SaFlags)
        ensures
            r@ == self@ & !other@,
            sa_flags_valid(r@),
    {
        proof {
            use_type_invariant(&self);
        }
        let a: i32 = self.bits;
        let b: i32 = other.bits;
        let v: i32 = a & !b;
        proof {
            lemma_valid_i32(a, b, SA_FLAGS_ALL);
        }
        SaFlags { bits: v }
    }

    /// Sets the flags of `other`.
    pub fn insert(&mut self, other: SaFlags)
        ensures
            final(self)@ == old(self)@ | other@,
            sa_flags_valid(final(self)@),
    {
        *self = self.union(other);
    }

    /// Clears the flags of `other`.
    pub fn remove(&mut self, other: SaFlags)
        ensures
            final(self)@ == old(self)@ & !other@,
            sa_flags_valid(final(self)@),
    {
        *self = self.difference(other);
    }
}

/// Every bit that a value of [`FdFlag`] may hold.
pub const FD_FLAG_ALL: i32 = 0x1;

/// Flags of a file descriptor (`F_GETFD`, `F_SETFD`).
///
/// A value holds only bits of `FD_FLAG_ALL`.
#[derive(Clone, Copy, Debug, PartialEq, Eq, Structural)]
pub struct FdFlag {
    bits: i32,
}

impl View for FdFlag {
    type V = i32;

    closed spec fn view(&self) -> i32 {
        self.bits
    }
}

/// Whether raw bits are all defined for [`FdFlag`].
pub open spec fn fd_flag_valid(b: i32) -> bool {
    b & !FD_FLAG_ALL == 0
}

/// The value that `FdFlag::from_bits` gives for raw bits.
pub closed spec fn fd_flag_from_bits(b: i32) -> Option<FdFlag> {
    if fd_flag_valid(b) {
        Some(FdFlag { bits: b })
    } else {
        None
    }
}

/// Raw bits that are all defined come back unchanged from a round trip through [`FdFlag`].
pub proof fn fd_flag_bits_round_trip(b: i32)
    requires
        fd_flag_valid(b),
    ensures
        fd_flag_from_bits(b) is Some,
        fd_flag_from_bits(b).unwrap()@ == b,
{
}

proof fn fd_flag_named_valid()
    ensures
        fd_flag_valid((0x1) as i32),
{
    assert(fd_flag_valid((0x1) as i32)) by (bit_vector);
}

/// A set of flags comes back as itself from a round trip through its raw bits.
pub proof fn fd_flag_from_own_bits(f: FdFlag)
    requires
        fd_flag_valid(f@),
    ensures
        fd_flag_from_bits(f@) == Some(f),
{
}

impl FdFlag {
    #[verifier::type_invariant]
    spec fn inv(self) -> bool {
        fd_flag_valid(self.bits)
    }

    #[allow(non_snake_case)]
    pub fn FD_CLOEXEC() -> (r: FdFlag)
        ensures
            r@ == 0x1,
            fd_flag_valid(r@),
    {
        proof {
            fd_flag_named_valid();
        }
        FdFlag { bits: 0x1 }
    }

    /// The set with no flag.
    pub closed spec fn spec_empty() -> FdFlag {
        FdFlag { bits: 0 }
    }

    /// The set with no flag.
    pub fn empty() -> (r: FdFlag)
        ensures
            r == FdFlag::spec_empty(),
            r@ == 0,
            fd_flag_valid(r@),
    {
        proof {
            lemma_valid_i32(0, 0, FD_FLAG_ALL);
        }
        FdFlag { bits: 0 }
    }

    /// The set of every defined flag.
    pub fn all() -> (r: FdFlag)
        ensures
            r@ == FD_FLAG_ALL,
            fd_flag_valid(r@),
    {
        proof {
            lemma_valid_i32(0, 0, FD_FLAG_ALL);
        }
        FdFlag { bits: FD_FLAG_ALL }
    }

    /// The raw bits.
    pub fn bits(&self) -> (r: i32)
        ensures
            r == self@,
            fd_flag_valid(r),
    {
        proof {
            use_type_invariant(self);
        }
        self.bits
    }

    /// The set of raw bits, or `None` where one of them is not defined.
    pub fn from_bits(b: i32) -> (r: Option<FdFlag>)
        ensures
            r == fd_flag_from_bits(b),
            r is Some <==> fd_flag_valid(b),
            r is Some ==> r.unwrap()@ == b && fd_flag_valid(r.unwrap()@),
    {
        if b & !FD_FLAG_ALL == 0 {
            Some(FdFlag { bits: b })
        } else {
            None
        }
    }

    /// The set of raw bits, with the bits that are not defined dropped.
    pub fn from_bits_truncate(b: i32) -> (r: FdFlag)
        ensures
            r@ == b & FD_FLAG_ALL,
            fd_flag_valid(r@),
    {
        let v: i32 = b & FD_FLAG_ALL;
        proof {
            lemma_valid_i32(0, b, FD_FLAG_ALL);
        }
        FdFlag { bits: v }
    }

    /// Whether no flag is set.
    pub fn is_empty(&self) -> (r: bool)
        ensures
            r == (self@ == 0),
    {
        self.bits == 0
    }

    /// Whether every flag of `other` is set here.
    pub fn contains(&self, other: FdFlag) -> (r: bool)
        ensures
            r == (self@ & other@ == other@),
    {
        self.bits & other.bits == other.bits
    }

    /// Whether some flag is set both here and in `other`.
    pub fn intersects(&self, other: FdFlag) -> (r: bool)
        ensures
            r == (self@ & other@ != 0),
    {
        self.bits & other.bits != 0
    }

    /// The flags set here or in `other`.
    pub fn union(self, other: FdFlag) -> (r: FdFlag)
        ensures
            r@ == self@ | other@,
            fd_flag_valid(r@),
    {
        proof {
            use_type_invariant(&self);
            use_type_invariant(&other);
        }
        let a: i32 = self.bits;
        let b: i32 = other.bits;
        let v: i32 = a | b;
        proof {
            lemma_valid_i32(a, b, FD_FLAG_ALL);
        }
        FdFlag { bits: v }
    }

    /// The flags set both here and in `other`.
    pub fn intersection(self, other: FdFlag) -> (r: FdFlag)
        ensures
            r@ == self@ & other@,
            fd_flag_valid(r@),
    {
        proof {
            use_type_invariant(&self);
        }
        let a: i32 = self.bits;
        let b: i32 = other.bits;
        let v: i32 = a & b;
        proof {
            lemma_valid_i32(a, b, FD_FLAG_ALL);
        }
        FdFlag { bits: v }
    }

    /// The flags set here and not in `other`.
    pub fn difference(self, other: FdFlag) -> (r: FdFlag)
        ensures
            r@ == self@ & !other@,
            fd_flag_valid(r@),
    {
        proof {
            use_type_invariant(&self);
        }
        let a: i32 = self.bits;
        let b: i32 = other.bits;
        let v: i32 = a & !b;
        proof {
            lemma_valid_i32(a, b, FD_FLAG_ALL);
        }
        FdFlag { bits: v }
    }

    /// Sets the flags of `other`.
    pub fn insert(&mut self, other: FdFlag)
        ensures
            final(self)@ == old(self)@ | other@,
            fd_flag_valid(final(self)@),
    {
        *self = self.union(other);
    }

    /// Clears the flags of `other`.
    pub fn remove(&mut self, other: FdFlag)
        ensures
            final(self)@ == old(self)@ & !other@,
            fd_flag_valid(final(self)@),
    {
        *self = self.difference(other);
    }
}

/// Every bit that a value of [`WaitPidFlag`] may hold.
pub const WAIT_PID_FLAG_ALL: i32 = -520093681;

/// Options of `waitpid`.
///
/// A value holds only bits of `WAIT_PID_FLAG_ALL`.
#[derive(Clone, Copy, Debug, PartialEq, Eq, Structural)]
pub struct WaitPidFlag {
    bits: i32,
}

impl View for WaitPidFlag {
    type V = i32;

    closed spec fn view(&self) -> i32 {
        self.bits
    }
}

/// Whether raw bits are all defined for [`WaitPidFlag`].
pub open spec fn wait_pid_flag_valid(b: i32) -> bool {
    b & !WAIT_PID_FLAG_ALL == 0
}

/// The value that `WaitPidFlag::from_bits` gives for raw bits.
pub closed spec fn wait_pid_flag_from_bits(b: i32) -> Option<WaitPidFlag> {
    if wait_pid_flag_valid(b) {
        Some(WaitPidFlag { bits: b })
    } else {
        None
    }
}

/// Raw bits that are all defined come back unchanged from a round trip through [`WaitPidFlag`].
pub proof fn wait_pid_flag_bits_round_trip(b: i32)
    requires
        wait_pid_flag_valid(b),
    ensures
        wait_pid_flag_from_bits(b) is Some,
        wait_pid_flag_from_bits(b).unwrap()@ == b,
{
}

proof fn wait_pid_flag_named_valid()
    ensures
        wait_pid_flag_valid((0x1) as i32),
        wait_pid_flag_valid((0x2) as i32),
        wait_pid_flag_valid((0x4) as i32),
        wait_pid_flag_valid((0x8) as i32),
        wait_pid_flag_valid((0x0100_0000) as i32),
        wait_pid_flag_valid((0x2000_0000) as i32),
        wait_pid_flag_valid((0x4000_0000) as i32),
        wait_pid_flag_valid((-0x8000_0000) as i32),
{
    assert(wait_pid_flag_valid((0x1) as i32) && wait_pid_flag_valid((0x2) as i32) && wait_pid_flag_valid((0x4) as i32) && wait_pid_flag_valid((0x8) as i32) && wait_pid_flag_valid((0x0100_0000) as i32) && wait_pid_flag_valid((0x2000_0000) as i32) && wait_pid_flag_valid((0x4000_0000) as i32) && wait_pid_flag_valid((-0x8000_0000) as i32)) by (bit_vector);
}

/// A set of flags comes back as itself from a round trip through its raw bits.
pub proof fn wait_pid_flag_from_own_bits(f: WaitPidFlag)
    requires
        wait_pid_flag_valid(f@),
    ensures
        wait_pid_flag_from_bits(f@) == Some(f),
{
}

impl WaitPidFlag {
    #[verifier::type_invariant]
    spec fn inv(self) -> bool {
        wait_pid_flag_valid(self.bits)
    }

    #[allow(non_snake_case)]
    pub fn WNOHANG() -> (r: WaitPidFlag)
        ensures
            r@ == 0x1,
            wait_pid_flag_valid(r@),
    {
        proof {
            wait_pid_flag_named_valid();
        }
        WaitPidFlag { bits: 0x1 }
    }

    #[allow(non_snake_case)]
    pub fn WUNTRACED() -> (r: WaitPidFlag)
        ensures
            r@ == 0x2,
            wait_pid_flag_valid(r@),
    {
        proof {
            wait_pid_flag_named_valid();
        }
        WaitPidFlag { bits: 0x2 }
    }

    #[allow(non_snake_case)]
    pub fn WEXITED() -> (r: WaitPidFlag)
        ensures
            r@ == 0x4,
            wait_pid_flag_valid(r@),
    {
        proof {
            wait_pid_flag_named_valid();
        }
        WaitPidFlag { bits: 0x4 }
    }

    #[allow(non_snake_case)]
    pub fn WCONTINUED() -> (r: WaitPidFlag)
        ensures
            r@ == 0x8,
            wait_pid_flag_valid(r@),
    {
        proof {
            wait_pid_flag_named_valid();
        }
        WaitPidFlag { bits: 0x8 }
    }

    #[allow(non_snake_case)]
    pub fn WNOWAIT() -> (r: WaitPidFlag)
        ensures
            r@ == 0x0100_0000,
            wait_pid_flag_valid(r@),
    {
        proof {
            wait_pid_flag_named_valid();
        }
        WaitPidFlag { bits: 0x0100_0000 }
    }

    #[allow(non_snake_case)]
    pub fn __WNOTHREAD() -> (r: WaitPidFlag)
        ensures
            r@ == 0x2000_0000,
            wait_pid_flag_valid(r@),
    {
        proof {
            wait_pid_flag_named_valid();
        }
        WaitPidFlag { bits: 0x2000_0000 }
    }

    #[allow(non_snake_case)]
    pub fn __WALL() -> (r: WaitPidFlag)
        ensures
            r@ == 0x4000_0000,
            wait_pid_flag_valid(r@),
    {
        proof {
            wait_pid_flag_named_valid();
        }
        WaitPidFlag { bits: 0x4000_0000 }
    }

    #[allow(non_snake_case)]
    pub fn __WCLONE() -> (r: WaitPidFlag)
        ensures
            r@ == -0x8000_0000,
            wait_pid_flag_valid(r@),
    {
        proof {
            wait_pid_flag_named_valid();
        }
        WaitPidFlag { bits: -0x8000_0000 }
    }

    /// The set with no flag.
    pub closed spec fn spec_empty() -> WaitPidFlag {
        WaitPidFlag { bits: 0 }
    }

    /// The set with no flag.
    pub fn empty() -> (r: WaitPidFlag)
        ensures
            r == WaitPidFlag::spec_empty(),
            r@ == 0,
            wait_pid_flag_valid(r@),
    {
        proof {
            lemma_valid_i32(0, 0, WAIT_PID_FLAG_ALL);
        }
        WaitPidFlag { bits: 0 }
    }

    /// The set of every defined flag.
    pub fn all() -> (r: WaitPidFlag)
        ensures
            r@ == WAIT_PID_FLAG_ALL,
            wait_pid_flag_valid(r@),
    {
        proof {
            lemma_valid_i32(0, 0, WAIT_PID_FLAG_ALL);
        }
        WaitPidFlag { bits: WAIT_PID_FLAG_ALL }
    }

    /// The raw bits.
    pub fn bits(&self) -> (r: i32)
        ensures
            r == self@,
            wait_pid_flag_valid(r),
    {
        proof {
            use_type_invariant(self);
        }
        self.bits
    }

    /// The set of raw bits, or `None` where one of them is not defined.
    pub fn from_bits(b: i32) -> (r: Option<WaitPidFlag>)
        ensures
            r == wait_pid_flag_from_bits(b),
            r is Some <==> wait_pid_flag_valid(b),
            r is Some ==> r.unwrap()@ == b && wait_pid_flag_valid(r.unwrap()@),
    {
        if b & !WAIT_PID_FLAG_ALL == 0 {
            Some(WaitPidFlag { bits: b })
        } else {
            None
        }
    }

    /// The set of raw bits, with the bits that are not defined dropped.
    pub fn from_bits_truncate(b: i32) -> (r: WaitPidFlag)
        ensures
            r@ == b & WAIT_PID_FLAG_ALL,
            wait_pid_flag_valid(r@),
    {
        let v: i32 = b & WAIT_PID_FLAG_ALL;
        proof {
            lemma_valid_i32(0, b, WAIT_PID_FLAG_ALL);
        }
        WaitPidFlag { bits: v }
    }

    /// Whether no flag is set.
    pub fn is_empty(&self) -> (r: bool)
        ensures
            r == (self@ == 0),
    {
        self.bits == 0
    }

    /// Whether every flag of `other` is set here.
    pub fn contains(&self, other: WaitPidFlag) -> (r: bool)
        ensures
            r == (self@ & other@ == other@),
    {
        self.bits & other.bits == other.bits
    }

    /// Whether some flag is set both here and in `other`.
    pub fn intersects(&self, other: WaitPidFlag) -> (r: bool)
        ensures
            r == (self@ & other@ != 0),
    {
        self.bits & other.bits != 0
    }

    /// The flags set here or in `other`.
    pub fn union(self, other: WaitPidFlag) -> (r: WaitPidFlag)
        ensures
            r@ == self@ | other@,
            wait_pid_flag_valid(r@),
    {
        proof {
            use_type_invariant(&self);
            use_type_invariant(&other);
        }
        let a: i32 = self.bits;
        let b: i32 = other.bits;
        let v: i32 = a | b;
        proof {
            lemma_valid_i32(a, b, WAIT_PID_FLAG_ALL);
        }
        WaitPidFlag { bits: v }
    }

    /// The flags set both here and in `other`.
    pub fn intersection(self, other: WaitPidFlag) -> (r: WaitPidFlag)
        ensures
            r@ == self@ & other@,
            wait_pid_flag_valid(r@),
    {
        proof {
            use_type_invariant(&self);
        }
        let a: i32 = self.bits;
        let b: i32 = other.bits;
        let v: i32 = a & b;
        proof {
            lemma_valid_i32(a, b, WAIT_PID_FLAG_ALL);
        }
        WaitPidFlag { bits: v }
    }

    /// The flags set here and not in `other`.
    pub fn difference(self, other: WaitPidFlag) -> (r: WaitPidFlag)
        ensures
            r@ == self@ & !other@,
            wait_pid_flag_valid(r@),
    {
        proof {
            use_type_invariant(&self);
        }
        let a: i32 = self.bits;
        let b: i32 = other.bits;
        let v: i32 = a & !b;
        proof {
            lemma_valid_i32(a, b, WAIT_PID_FLAG_ALL);
        }
        WaitPidFlag { bits: v }
    }

    /// Sets the flags of `other`.
    pub fn insert(&mut self, other: WaitPidFlag)
        ensures
            final(self)@ == old(self)@ | other@,
            wait_pid_flag_valid(final(self)@),
    {
        *self = self.union(other);
    }

    /// Clears the flags of `other`.
    pub fn remove(&mut self, other: WaitPidFlag)
        ensures
            final(self)@ == old(self)@ & !other@,
            wait_pid_flag_valid(final(self)@),
    {
        *self = self.difference(other);
    }
}

/// Every bit that a value of [`Mode`] may hold.
pub const MODE_ALL: u32 = 0xfff;

/// Permission bits of a file.
///
/// A value holds only bits of `MODE_ALL`.
#[derive(Clone, Copy, Debug, PartialEq, Eq, Structural)]
pub struct Mode {
    bits: u32,
}

impl View for Mode {
    type V = u32;

    closed spec fn view(&self) -> u32 {
        self.bits
    }
}

/// Whether raw bits are all defined for [`Mode`].
pub open spec fn mode_valid(b: u32) -> bool {
    b & !MODE_ALL == 0
}

/// The value that `Mode::from_bits` gives for raw bits.
pub closed spec fn mode_from_bits(b: u32) -> Option<Mode> {
    if mode_valid(b) {
        Some(Mode { bits: b })
    } else {
        None
    }
}

/// Raw bits that are all defined come back unchanged from a round trip through [`Mode`].
pub proof fn mode_bits_round_trip(b: u32)
    requires
        mode_valid(b),
    ensures
        mode_from_bits(b) is Some,
        mode_from_bits(b).unwrap()@ == b,
{
}

proof fn mode_named_valid()
    ensures
        mode_valid((0o700) as u32),
        mode_valid((0o400) as u32),
        mode_valid((0o200) as u32),
        mode_valid((0o100) as u32),
        mode_valid((0o70) as u32),
        mode_valid((0o40) as u32),
        mode_valid((0o20) as u32),
        mode_valid((0o10) as u32),
        mode_valid((0o7) as u32),
        mode_valid((0o4) as u32),
        mode_valid((0o2) as u32),
        mode_valid((0o1) as u32),
        mode_valid((0o4000) as u32),
        mode_valid((0o2000) as u32),
        mode_valid((0o1000) as u32),
{
    assert(mode_valid((0o700) as u32) && mode_valid((0o400) as u32) && mode_valid((0o200) as u32) && mode_valid((0o100) as u32) && mode_valid((0o70) as u32) && mode_valid((0o40) as u32) && mode_valid((0o20) as u32) && mode_valid((0o10) as u32) && mode_valid((0o7) as u32) && mode_valid((0o4) as u32) && mode_valid((0o2) as u32) && mode_valid((0o1) as u32) && mode_valid((0o4000) as u32) && mode_valid((0o2000) as u32) && mode_valid((0o1000) as u32)) by (bit_vector);
}

/// A set of flags comes back as itself from a round trip through its raw bits.
pub proof fn mode_from_own_bits(f: Mode)
    requires
        mode_valid(f@),
    ensures
        mode_from_bits(f@) == Some(f),
{
}

impl Mode {
    #[verifier::type_invariant]
    spec fn inv(self) -> bool {
        mode_valid(self.bits)
    }

    #[allow(non_snake_case)]
    pub fn S_IRWXU() -> (r: Mode)
        ensures
            r@ == 0o700,
            mode_valid(r@),
    {
        proof {
            mode_named_valid();
        }
        Mode { bits: 0o700 }
    }

    #[allow(non_snake_case)]
    pub fn S_IRUSR() -> (r: Mode)
        ensures
            r@ == 0o400,
            mode_valid(r@),
    {
        proof {
            mode_named_valid();
        }
        Mode { bits: 0o400 }
    }

    #[allow(non_snake_case)]
    pub fn S_IWUSR() -> (r: Mode)
        ensures
            r@ == 0o200,
            mode_valid(r@),
    {
        proof {
            mode_named_valid();
        }
        Mode { bits: 0o200 }
    }

    #[allow(non_snake_case)]
    pub fn S_IXUSR() -> (r: Mode)
        ensures
            r@ == 0o100,
            mode_valid(r@),
    {
        proof {
            mode_named_valid();
        }
        Mode { bits: 0o100 }
    }

    #[allow(non_snake_case)]
    pub fn S_IRWXG() -> (r: Mode)
        ensures
            r@ == 0o70,
            mode_valid(r@),
    {
        proof {
            mode_named_valid();
        }
        Mode { bits: 0o70 }
    }

    #[allow(non_snake_case)]
    pub fn S_IRGRP() -> (r: Mode)
        ensures
            r@ == 0o40,
            mode_valid(r@),
    {
        proof {
            mode_named_valid();
        }
        Mode { bits: 0o40 }
    }

    #[allow(non_snake_case)]
    pub fn S_IWGRP() -> (r: Mode)
        ensures
            r@ == 0o20,
            mode_valid(r@),
    {
        proof {
            mode_named_valid();
        }
        Mode { bits: 0o20 }
    }

    #[allow(non_snake_case)]
    pub fn S_IXGRP() -> (r: Mode)
        ensures
            r@ == 0o10,
            mode_valid(r@),
    {
        proof {
            mode_named_valid();
        }
        Mode { bits: 0o10 }
    }

    #[allow(non_snake_case)]
    pub fn S_IRWXO() -> (r: Mode)
        ensures
            r@ == 0o7,
            mode_valid(r@),
    {
        proof {
            mode_named_valid();
        }
        Mode { bits: 0o7 }
    }

    #[allow(non_snake_case)]
    pub fn S_IROTH() -> (r: Mode)
        ensures
            r@ == 0o4,
            mode_valid(r@),
    {
        proof {
            mode_named_valid();
        }
        Mode { bits: 0o4 }
    }

    #[allow(non_snake_case)]
    pub fn S_IWOTH() -> (r: Mode)
        ensures
            r@ == 0o2,
            mode_valid(r@),
    {
        proof {
            mode_named_valid();
        }
        Mode { bits: 0o2 }
    }

    #[allow(non_snake_case)]
    pub fn S_IXOTH() -> (r: Mode)
        ensures
            r@ == 0o1,
            mode_valid(r@),
    {
        proof {
            mode_named_valid();
        }
        Mode { bits: 0o1 }
    }

    #[allow(non_snake_case)]
    pub fn S_ISUID() -> (r: Mode)
        ensures
            r@ == 0o4000,
            mode_valid(r@),
    {
        proof {
            mode_named_valid();
        }
        Mode { bits: 0o4000 }
    }

    #[allow(non_snake_case)]
    pub fn S_ISGID() -> (r: Mode)
        ensures
            r@ == 0o2000,
            mode_valid(r@),
    {
        proof {
            mode_named_valid();
        }
        Mode { bits: 0o2000 }
    }

    #[allow(non_snake_case)]
    pub fn S_ISVTX() -> (r: Mode)
        ensures
            r@ == 0o1000,
            mode_valid(r@),
    {
        proof {
            mode_named_valid();
        }
        Mode { bits: 0o1000 }
    }

    /// The set with no flag.
    pub closed spec fn spec_empty() -> Mode {
        Mode { bits: 0 }
    }

    /// The set with no flag.
    pub fn empty() -> (r: Mode)
        ensures
            r == Mode::spec_empty(),
            r@ == 0,
            mode_valid(r@),
    {
        proof {
            lemma_valid_u32(0, 0, MODE_ALL);
        }
        Mode { bits: 0 }
    }

    /// The set of every defined flag.
    pub fn all() -> (r: Mode)
        ensures
            r@ == MODE_ALL,
            mode_valid(r@),
    {
        proof {
            lemma_valid_u32(0, 0, MODE_ALL);
        }
        Mode { bits: MODE_ALL }
    }

    /// The raw bits.
    pub fn bits(&self) -> (r: u32)
        ensures
            r == self@,
            mode_valid(r),
    {
        proof {
            use_type_invariant(self);
        }
        self.bits
    }

    /// The set of raw bits, or `None` where one of them is not defined.
    pub fn from_bits(b: u32) -> (r: Option<Mode>)
        ensures
            r == mode_from_bits(b),
            r is Some <==> mode_valid(b),
            r is Some ==> r.unwrap()@ == b && mode_valid(r.unwrap()@),
    {
        if b & !MODE_ALL == 0 {
            Some(Mode { bits: b })
        } else {
            None
        }
    }

    /// The set of raw bits, with the bits that are not defined dropped.
    pub fn from_bits_truncate(b: u32) -> (r: Mode)
        ensures
            r@ == b & MODE_ALL,
            mode_valid(r@),
    {
        let v: u32 = b & MODE_ALL;
        proof {
            lemma_valid_u32(0, b, MODE_ALL);
        }
        Mode { bits: v }
    }

    /// Whether no flag is set.
    pub fn is_empty(&self) -> (r: bool)
        ensures
            r == (self@ == 0),
    {
        self.bits == 0
    }

    /// Whether every flag of `other` is set here.
    pub fn contains(&self, other: Mode) -> (r: bool)
        ensures
            r == (self@ & other@ == other@),
    {
        self.bits & other.bits == other.bits
    }

    /// Whether some flag is set both here and in `other`.
    pub fn intersects(&self, other: Mode) -> (r: bool)
        ensures
            r == (self@ & other@ != 0),
    {
        self.bits & other.bits != 0
    }

    /// The flags set here or in `other`.
    pub fn union(self, other: Mode) -> (r: Mode)
        ensures
            r@ == self@ | other@,
            mode_valid(r@),
    {
        proof {
            use_type_invariant(&self);
            use_type_invariant(&other);
        }
        let a: u32 = self.bits;
        let b: u32 = other.bits;
        let v: u32 = a | b;
        proof {
            lemma_valid_u32(a, b, MODE_ALL);
        }
        Mode { bits: v }
    }

    /// The flags set both here and in `other`.
    pub fn intersection(self, other: Mode) -> (r: Mode)
        ensures
            r@ == self@ & other@,
            mode_valid(r@),
    {
        proof {
            use_type_invariant(&self);
        }
        let a: u32 = self.bits;
        let b: u32 = other.bits;
        let v: u32 = a & b;
        proof {
            lemma_valid_u32(a, b, MODE_ALL);
        }
        Mode { bits: v }
    }

    /// The flags set here and not in `other`.
    pub fn difference(self, other: Mode) -> (r: Mode)
        ensures
            r@ == self@ & !other@,
            mode_valid(r@),
    {
        proof {
            use_type_invariant(&self);
        }
        let a: u32 = self.bits;
        let b: u32 = other.bits;
        let v: u32 = a & !b;
        proof {
            lemma_valid_u32(a, b, MODE_ALL);
        }
        Mode { bits: v }
    }

    /// Sets the flags of `other`.
    pub fn insert(&mut self, other: Mode)
        ensures
            final(self)@ == old(self)@ | other@,
            mode_valid(final(self)@),
    {
        *self = self.union(other);
    }

    /// Clears the flags of `other`.
    pub fn remove(&mut self, other: Mode)
        ensures
            final(self)@ == old(self)@ & !other@,
            mode_valid(final(self)@),
    {
        *self = self.difference(other);
    }
}

/// Every bit that a value of [`SFlag`] may hold.
pub const S_FLAG_ALL: u32 = 0xf000;

/// File type bits of a file mode.
///
/// A value holds only bits of `S_FLAG_ALL`.
#[derive(Clone, Copy, Debug, PartialEq, Eq, Structural)]
pub struct SFlag {
    bits: u32,
}

impl View for SFlag {
    type V = u32;

    closed spec fn view(&self) -> u32 {
        self.bits
    }
}

/// Whether raw bits are all defined for [`SFlag`].
pub open spec fn s_flag_valid(b: u32) -> bool {
    b & !S_FLAG_ALL == 0
}

/// The value that `SFlag::from_bits` gives for raw bits.
pub closed spec fn s_flag_from_bits(b: u32) -> Option<SFlag> {
    if s_flag_valid(b) {
        Some(SFlag { bits: b })
    } else {
        None
    }
}

/// Raw bits that are all defined come back unchanged from a round trip through [`SFlag`].
pub proof fn s_flag_bits_round_trip(b: u32)
    requires
        s_flag_valid(b),
    ensures
        s_flag_from_bits(b) is Some,
        s_flag_from_bits(b).unwrap()@ == b,
{
}

proof fn s_flag_named_valid()
    ensures
        s_flag_valid((0o10000) as u32),
        s_flag_valid((0o20000) as u32),
        s_flag_valid((0o40000) as u32),
        s_flag_valid((0o60000) as u32),
        s_flag_valid((0o100000) as u32),
        s_flag_valid((0o120000) as u32),
        s_flag_valid((0o140000) as u32),
        s_flag_valid((0o170000) as u32),
{
    assert(s_flag_valid((0o10000) as u32) && s_flag_valid((0o20000) as u32) && s_flag_valid((0o40000) as u32) && s_flag_valid((0o60000) as u32) && s_flag_valid((0o100000) as u32) && s_flag_valid((0o120000) as u32) && s_flag_valid((0o140000) as u32) && s_flag_valid((0o170000) as u32)) by (bit_vector);
}

/// A set of flags comes back as itself from a round trip through its raw bits.
pub proof fn s_flag_from_own_bits(f: SFlag)
    requires
        s_flag_valid(f@),
    ensures
        s_flag_from_bits(f@) == Some(f),
{
}

impl SFlag {
    #[verifier::type_invariant]
    spec fn inv(self) -> bool {
        s_flag_valid(self.bits)
    }

    #[allow(non_snake_case)]
    pub fn S_IFIFO() -> (r: SFlag)
        ensures
            r@ == 0o10000,
            s_flag_valid(r@),
    {
        proof {
            s_flag_named_valid();
        }
        SFlag { bits: 0o10000 }
    }

    #[allow(non_snake_case)]
    pub fn S_IFCHR() -> (r: SFlag)
        ensures
            r@ == 0o20000,
            s_flag_valid(r@),
    {
        proof {
            s_flag_named_valid();
        }
        SFlag { bits: 0o20000 }
    }

    #[allow(non_snake_case)]
    pub fn S_IFDIR() -> (r: SFlag)
        ensures
            r@ == 0o40000,
            s_flag_valid(r@),
    {
        proof {
            s_flag_named_valid();
        }
        SFlag { bits: 0o40000 }
    }

    #[allow(non_snake_case)]
    pub fn S_IFBLK() -> (r: SFlag)
        ensures
            r@ == 0o60000,
            s_flag_valid(r@),
    {
        proof {
            s_flag_named_valid();
        }
        SFlag { bits: 0o60000 }
    }

    #[allow(non_snake_case)]
    pub fn S_IFREG() -> (r: SFlag)
        ensures
            r@ == 0o100000,
            s_flag_valid(r@),
    {
        proof {
            s_flag_named_valid();
        }
        SFlag { bits: 0o100000 }
    }

    #[allow(non_snake_case)]
    pub fn S_IFLNK() -> (r: SFlag)
        ensures
            r@ == 0o120000,
            s_flag_valid(r@),
    {
        proof {
            s_flag_named_valid();
        }
        SFlag { bits: 0o120000 }
    }

    #[allow(non_snake_case)]
    pub fn S_IFSOCK() -> (r: SFlag)
        ensures
            r@ == 0o140000,
            s_flag_valid(r@),
    {
        proof {
            s_flag_named_valid();
        }
        SFlag { bits: 0o140000 }
    }

    #[allow(non_snake_case)]
    pub fn S_IFMT() -> (r: SFlag)
        ensures
            r@ == 0o170000,
            s_flag_valid(r@),
    {
        proof {
            s_flag_named_valid();
        }
        SFlag { bits: 0o170000 }
    }

    /// The set with no flag.
    pub closed spec fn spec_empty() -> SFlag {
        SFlag { bits: 0 }
    }

    /// The set with no flag.
    pub fn empty() -> (r: SFlag)
        ensures
            r == SFlag::spec_empty(),
            r@ == 0,
            s_flag_valid(r@),
    {
        proof {
            lemma_valid_u32(0, 0, S_FLAG_ALL);
        }
        SFlag { bits: 0 }
    }

    /// The set of every defined flag.
    pub fn all() -> (r: SFlag)
        ensures
            r@ == S_FLAG_ALL,
            s_flag_valid(r@),
    {
        proof {
            lemma_valid_u32(0, 0, S_FLAG_ALL);
        }
        SFlag { bits: S_FLAG_ALL }
    }

    /// The raw bits.
    pub fn bits(&self) -> (r: u32)
        ensures
            r == self@,
            s_flag_valid(r),
    {
        proof {
            use_type_invariant(self);
        }
        self.bits
    }

    /// The set of raw bits, or `None` where one of them is not defined.
    pub fn from_bits(b: u32) -> (r: Option<SFlag>)
        ensures
            r == s_flag_from_bits(b),
            r is Some <==> s_flag_valid(b),
            r is Some ==> r.unwrap()@ == b && s_flag_valid(r.unwrap()@),
    {
        if b & !S_FLAG_ALL == 0 {
            Some(SFlag { bits: b })
        } else {
            None
        }
    }

    /// The set of raw bits, with the bits that are not defined dropped.
    pub fn from_bits_truncate(b: u32) -> (r: SFlag)
        ensures
            r@ == b & S_FLAG_ALL,
            s_flag_valid(r@),
    {
        let v: u32 = b & S_FLAG_ALL;
        proof {
            lemma_valid_u32(0, b, S_FLAG_ALL);
        }
        SFlag { bits: v }
    }

    /// Whether no flag is set.
    pub fn is_empty(&self) -> (r: bool)
        ensures
            r == (self@ == 0),
    {
        self.bits == 0
    }

    /// Whether every flag of `other` is set here.
    pub fn contains(&self, other: SFlag) -> (r: bool)
        ensures
            r == (self@ & other@ == other@),
    {
        self.bits & other.bits == other.bits
    }

    /// Whether some flag is set both here and in `other`.
    pub fn intersects(&self, other: SFlag) -> (r: bool)
        ensures
            r == (self@ & other@ != 0),
    {
        self.bits & other.bits != 0
    }

    /// The flags set here or in `other`.
    pub fn union(self, other: SFlag) -> (r: SFlag)
        ensures
            r@ == self@ | other@,
            s_flag_valid(r@),
    {
        proof {
            use_type_invariant(&self);
            use_type_invariant(&other);
        }
        let a: u32 = self.bits;
        let b: u32 = other.bits;
        let v: u32 = a | b;
        proof {
            lemma_valid_u32(a, b, S_FLAG_ALL);
        }
        SFlag { bits: v }
    }

    /// The flags set both here and in `other`.
    pub fn intersection(self, other: SFlag) -> (r: SFlag)
        ensures
            r@ == self@ & other@,
            s_flag_valid(r@),
    {
        proof {
            use_type_invariant(&self);
        }
        let a: u32 = self.bits;
        let b: u32 = other.bits;
        let v: u32 = a & b;
        proof {
            lemma_valid_u32(a, b, S_FLAG_ALL);
        }
        SFlag { bits: v }
    }

    /// The flags set here and not in `other`.
    pub fn difference(self, other: SFlag) -> (r: SFlag)
        ensures
            r@ == self@ & !other@,
            s_flag_valid(r@),
    {
        proof {
            use_type_invariant(&self);
        }
        let a: u32 = self.bits;
        let b: u32 = other.bits;
        let v: u32 = a & !b;
        proof {
            lemma_valid_u32(a, b, S_FLAG_ALL);
        }
        SFlag { bits: v }
    }

    /// Sets the flags of `other`.
    pub fn insert(&mut self, other: SFlag)
        ensures
            final(self)@ == old(self)@ | other@,
            s_flag_valid(final(self)@),
    {
        *self = self.union(other);
    }

    /// Clears the flags of `other`.
    pub fn remove(&mut self, other: SFlag)
        ensures
            final(self)@ == old(self)@ & !other@,
            s_flag_valid(final(self)@),
    {
        *self = self.difference(other);
    }
}

} // verus!
