//! The vocabulary of the native interface, as plain values.
//!
//! References cross the boundary as addresses, flags as bytes, versions and
//! status codes as 32-bit integers. The two enumerations here are closed:
//! [`JniVersion::from_raw`] and [`JniError::from_raw`] tell a caller which
//! integers belong to them.

use vstd::prelude::*;

verus! {

/// A 32-bit integer of the native interface.
#[allow(non_camel_case_types)]
pub type jint = i32;

/// A length or an index of the native interface.
#[allow(non_camel_case_types)]
pub type jsize = i32;

/// A flag of the native interface: [`JNI_TRUE`] or [`JNI_FALSE`].
#[allow(non_camel_case_types)]
pub type jboolean = u8;

/// A reference to a Java object: the address that the interface handed out.
#[allow(non_camel_case_types)]
pub type jobject = usize;

/// A reference to a Java class.
#[allow(non_camel_case_types)]
pub type jclass = usize;

/// A reference to a Java throwable.
#[allow(non_camel_case_types)]
pub type jthrowable = usize;

/// A reference to a Java string.
#[allow(non_camel_case_types)]
pub type jstring = usize;

/// A reference to a Java array.
#[allow(non_camel_case_types)]
pub type jarray = usize;

/// The flag that the interface returns for "yes".
pub const JNI_TRUE: jboolean = 1;

/// The flag that the interface returns for "no".
pub const JNI_FALSE: jboolean = 0;

/// The reference that refers to nothing.
pub const NULL: jobject = 0;

/// Whether a flag of the interface means "yes". Only [`JNI_TRUE`] does.
pub open spec fn yes(flag: jboolean) -> bool {
    flag == JNI_TRUE
}

/// A released version of the native interface.
///
/// The variants stand in the order of their release, so the derived order
/// is the order of the versions.
#[allow(non_camel_case_types)]
#[derive(Clone, Copy, Debug, PartialEq, Eq, PartialOrd, Ord, Structural)]
pub enum JniVersion {
    JNI_VERSION_1_1,
    JNI_VERSION_1_2,
    JNI_VERSION_1_4,
    JNI_VERSION_1_6,
    JNI_VERSION_1_8,
}

impl JniVersion {
    /// The integer by which the interface names this version.
    pub open spec fn code(self) -> int {
        match self {
            JniVersion::JNI_VERSION_1_1 => 0x0001_0001,
            JniVersion::JNI_VERSION_1_2 => 0x0001_0002,
            JniVersion::JNI_VERSION_1_4 => 0x0001_0004,
            JniVersion::JNI_VERSION_1_6 => 0x0001_0006,
            JniVersion::JNI_VERSION_1_8 => 0x0001_0008,
        }
    }

    /// The version that the integer `raw` names, if it names one.
    pub open spec fn decode(raw: int) -> Option<JniVersion> {
        if raw == 0x0001_0001 {
            Some(JniVersion::JNI_VERSION_1_1)
        } else if raw == 0x0001_0002 {
            Some(JniVersion::JNI_VERSION_1_2)
        } else if raw == 0x0001_0004 {
            Some(JniVersion::JNI_VERSION_1_4)
        } else if raw == 0x0001_0006 {
            Some(JniVersion::JNI_VERSION_1_6)
        } else if raw == 0x0001_0008 {
            Some(JniVersion::JNI_VERSION_1_8)
        } else {
            None
        }
    }

    /// Whether this version is `floor` or a later one.
    pub open spec fn meets(self, floor: JniVersion) -> bool {
        self.code() >= floor.code()
    }

    /// The integer to hand to the interface for this version.
    pub fn to_raw(self) -> (raw: jint)
        ensures
            raw == self.code(),
    {
        match self {
            JniVersion::JNI_VERSION_1_1 => 0x0001_0001,
            JniVersion::JNI_VERSION_1_2 => 0x0001_0002,
            JniVersion::JNI_VERSION_1_4 => 0x0001_0004,
            JniVersion::JNI_VERSION_1_6 => 0x0001_0006,
            JniVersion::JNI_VERSION_1_8 => 0x0001_0008,
        }
    }

    /// Reads a version that the interface reported. `None` for an integer
    /// that names no released version.
    pub fn from_raw(raw: jint) -> (version: Option<JniVersion>)
        ensures
            version == JniVersion::decode(raw as int),
    {
        if raw == 0x0001_0001 {
            Some(JniVersion::JNI_VERSION_1_1)
        } else if raw == 0x0001_0002 {
            Some(JniVersion::JNI_VERSION_1_2)
        } else if raw == 0x0001_0004 {
            Some(JniVersion::JNI_VERSION_1_4)
        } else if raw == 0x0001_0006 {
            Some(JniVersion::JNI_VERSION_1_6)
        } else if raw == 0x0001_0008 {
            Some(JniVersion::JNI_VERSION_1_8)
        } else {
            None
        }
    }

    /// Whether this version is `floor` or a later one.
    pub fn at_least(self, floor: JniVersion) -> (yes: bool)
        ensures
            yes == self.meets(floor),
    {
        self.to_raw() >= floor.to_raw()
    }

    /// Reading back the integer of a version gives that version, and an
    /// integer that reads as a version is the integer of that version.
    pub proof fn lemma_code_round_trip(self, raw: int)
        ensures
            JniVersion::decode(self.code()) == Some(self),
            JniVersion::decode(raw) matches Some(v) ==> v.code() == raw,
    {
    }

    /// `meets` is a total order on versions: reflexive, transitive,
    /// antisymmetric, and any two versions compare.
    pub proof fn lemma_meets_is_total_order(a: JniVersion, b: JniVersion, c: JniVersion)
        ensures
            a.meets(a),
            a.meets(b) && b.meets(c) ==> a.meets(c),
            a.meets(b) && b.meets(a) ==> a == b,
            a.meets(b) || b.meets(a),
    {
    }
}

/// A status code of the native interface.
#[allow(non_camel_case_types)]
#[derive(Clone, Copy, Debug, PartialEq, Eq, Structural)]
pub enum JniError {
    /// Success.
    JNI_OK,
    /// An error without a more precise code.
    JNI_ERR,
    /// The thread is not attached to the runtime.
    JNI_EDETACHED,
    /// The runtime does not support the version asked for.
    JNI_EVERSION,
    /// Out of memory.
    JNI_ENOMEM,
    /// A runtime exists already.
    JNI_EEXIST,
    /// An argument was invalid.
    JNI_EINVAL,
}

impl JniError {
    /// The integer by which the interface names this status.
    pub open spec fn code(self) -> int {
        match self {
            JniError::JNI_OK => 0,
            JniError::JNI_ERR => -1,
            JniError::JNI_EDETACHED => -2,
            JniError::JNI_EVERSION => -3,
            JniError::JNI_ENOMEM => -4,
            JniError::JNI_EEXIST => -5,
            JniError::JNI_EINVAL => -6,
        }
    }

    /// The status that the integer `raw` names, if it names one.
    pub open spec fn decode(raw: int) -> Option<JniError> {
        if raw == 0 {
            Some(JniError::JNI_OK)
        } else if raw == -1 {
            Some(JniError::JNI_ERR)
        } else if raw == -2 {
            Some(JniError::JNI_EDETACHED)
        } else if raw == -3 {
            Some(JniError::JNI_EVERSION)
        } else if raw == -4 {
            Some(JniError::JNI_ENOMEM)
        } else if raw == -5 {
            Some(JniError::JNI_EEXIST)
        } else if raw == -6 {
            Some(JniError::JNI_EINVAL)
        } else {
            None
        }
    }

    /// The integer that the interface uses for this status.
    pub fn to_raw(self) -> (raw: jint)
        ensures
            raw == self.code(),
    {
        match self {
            JniError::JNI_OK => 0,
            JniError::JNI_ERR => -1,
            JniError::JNI_EDETACHED => -2,
            JniError::JNI_EVERSION => -3,
            JniError::JNI_ENOMEM => -4,
            JniError::JNI_EEXIST => -5,
            JniError::JNI_EINVAL => -6,
        }
    }

    /// Reads a status that the interface returned. `None` for an integer
    /// that names no status.
    pub fn from_raw(raw: jint) -> (status: Option<JniError>)
        ensures
            status == JniError::decode(raw as int),
    {
        if raw == 0 {
            Some(JniError::JNI_OK)
        } else if raw == -1 {
            Some(JniError::JNI_ERR)
        } else if raw == -2 {
            Some(JniError::JNI_EDETACHED)
        } else if raw == -3 {
            Some(JniError::JNI_EVERSION)
        } else if raw == -4 {
            Some(JniError::JNI_ENOMEM)
        } else if raw == -5 {
            Some(JniError::JNI_EEXIST)
        } else if raw == -6 {
            Some(JniError::JNI_EINVAL)
        } else {
            None
        }
    }

    /// Whether this status is success.
    pub fn is_ok(self) -> (yes: bool)
        ensures
            yes == (self == JniError::JNI_OK),
    {
        match self {
            JniError::JNI_OK => true,
            _ => false,
        }
    }

    /// Reading back the integer of a status gives that status, and an
    /// integer that reads as a status is the integer of that status.
    pub proof fn lemma_code_round_trip(self, raw: int)
        ensures
            JniError::decode(self.code()) == Some(self),
            JniError::decode(raw) matches Some(e) ==> e.code() == raw,
    {
    }
}

} // verus!
