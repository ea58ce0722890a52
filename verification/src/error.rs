use vstd::prelude::*;

use crate::Tag;

verus! {

/// The structured result of a fallible operation: a success value or an
/// [`Error`].
///
/// A path or configuration name holding an interior NUL byte cannot cross
/// the storage boundary and is reported as [`Error::NulError`] before the
/// engine is contacted; everything the engine itself reports arrives as a
/// structured [`WCDBError`] record.
#[derive(Debug)]
pub enum Error {
    /// A path or name contained an interior NUL byte.
    NulError,
    /// A structured error record reported by the storage engine.
    WCDBError(Box<WCDBError>),
}

/// Primary result code of a storage operation, mirroring the engine's closed
/// enumeration; `OK` is the success sentinel.
#[derive(Clone, Copy, PartialEq, Eq, Structural, Debug, Hash)]
pub enum WCDBErrorCode {
    OK,
    Error,
    Internal,
    Permission,
    Abort,
    Busy,
    Locked,
    NoMemory,
    Readonly,
    Interrupt,
    IOError,
    Corrupt,
    NotFound,
    Full,
    CantOpen,
    Protocol,
    Empty,
    Schema,
    Exceed,
    Constraint,
    Mismatch,
    Misuse,
    NoLargeFileSupport,
    Authorization,
    Format,
    Range,
    NotADatabase,
    Notice,
    Warning,
    Row,
    Done,
}

/// Extended result code: a secondary reason layered onto a primary code,
/// encoded by the engine as `primary | (secondary << 8)`.
#[derive(Clone, Copy, PartialEq, Eq, Structural, Debug, Hash)]
pub enum WCDBExtendErrorCode {
    ErrorMissingCollseq,
    ErrorRetry,
    ErrorSnapshot,
    IOErrorRead,
    IOErrorShortRead,
    IOErrorWrite,
    IOErrorFsync,
    IOErrorDirFsync,
    IOErrorTruncate,
    IOErrorFstat,
    IOErrorUnlock,
    IOErrorRdlock,
    IOErrorDelete,
    IOErrorBlocked,
    IOErrorNoMemory,
    IOErrorAccess,
    IOErrorCheckReservedLock,
    IOErrorLock,
    IOErrorClose,
    IOErrorDirClose,
    IOErrorShmOpen,
    IOErrorShmSize,
    IOErrorShmLock,
    IOErrorShmMap,
    IOErrorSeek,
    IOErrorDeleteNoEntry,
    IOErrorMmap,
    IOErrorGetTempPath,
    IOErrorConvPath,
    IOErrorVnode,
    IOErrorAuthorization,
    IOErrorBeginAtomic,
    IOErrorCommitAtomic,
    IOErrorRollbackAtomic,
    LockedSharedCache,
    LockedVirtualTable,
    BusyRecovery,
    BusySnapshot,
    CantOpenNoTempDir,
    CantOpenIsDir,
    CantOpenFullPath,
    CantOpenConvPath,
    CantOpenDirtyWal,
    CorruptVirtualTable,
    CorruptSequence,
    ReadonlyRecovery,
    ReadonlyCantLock,
    ReadonlyRollback,
    ReadonlyDatabaseMoved,
    ReadonlyCantInit,
    ReadonlyDirectory,
    AbortRollback,
    ConstraintCheck,
    ConstraintCommitHook,
    ConstraintForeignKey,
    ConstraintFunction,
    ConstraintNotNull,
    ConstraintPrimaryKey,
    ConstraintTrigger,
    ConstraintUnique,
    ConstraintVirtualTable,
    ConstraintRowID,
    NoticeRecoverWal,
    NoticeRecoverRollback,
    WarningAutoIndex,
    AuthorizationUser,
    OKLoadPermanently,
}

/// Severity of a reported error, in increasing order of gravity.
#[derive(Clone, Copy, PartialEq, Eq, Structural, Debug, Hash)]
pub enum WCDBErrorLevel {
    Ignore,
    Debug,
    Notice,
    Warning,
    Error,
    Fatal,
}

/// The diagnostic keys the engine attaches to an error record; every other
/// key is `Invalid` and lands in the extra-info bag.
#[derive(Clone, Copy, PartialEq, Eq, Structural, Debug)]
pub enum WCDBErrorKey {
    Tag,
    Path,
    Type,
    Source,
    Sql,
    ExtendedCode,
    Message,
    Invalid,
}

impl WCDBErrorCode {
    /// The numeric value of this primary code, for specifications.
    pub open spec fn code_value(self) -> i32 {
        match self {
            WCDBErrorCode::OK => 0,
            WCDBErrorCode::Error => 1,
            WCDBErrorCode::Internal => 2,
            WCDBErrorCode::Permission => 3,
            WCDBErrorCode::Abort => 4,
            WCDBErrorCode::Busy => 5,
            WCDBErrorCode::Locked => 6,
            WCDBErrorCode::NoMemory => 7,
            WCDBErrorCode::Readonly => 8,
            WCDBErrorCode::Interrupt => 9,
            WCDBErrorCode::IOError => 10,
            WCDBErrorCode::Corrupt => 11,
            WCDBErrorCode::NotFound => 12,
            WCDBErrorCode::Full => 13,
            WCDBErrorCode::CantOpen => 14,
            WCDBErrorCode::Protocol => 15,
            WCDBErrorCode::Empty => 16,
            WCDBErrorCode::Schema => 17,
            WCDBErrorCode::Exceed => 18,
            WCDBErrorCode::Constraint => 19,
            WCDBErrorCode::Mismatch => 20,
            WCDBErrorCode::Misuse => 21,
            WCDBErrorCode::NoLargeFileSupport => 22,
            WCDBErrorCode::Authorization => 23,
            WCDBErrorCode::Format => 24,
            WCDBErrorCode::Range => 25,
            WCDBErrorCode::NotADatabase => 26,
            WCDBErrorCode::Notice => 27,
            WCDBErrorCode::Warning => 28,
            WCDBErrorCode::Row => 100,
            WCDBErrorCode::Done => 101,
        }
    }

    /// The numeric value of this primary code.
    pub fn value(self) -> (r: i32)
        ensures
            r == self.code_value(),
    {
        match self {
            WCDBErrorCode::OK => 0,
            WCDBErrorCode::Error => 1,
            WCDBErrorCode::Internal => 2,
            WCDBErrorCode::Permission => 3,
            WCDBErrorCode::Abort => 4,
            WCDBErrorCode::Busy => 5,
            WCDBErrorCode::Locked => 6,
            WCDBErrorCode::NoMemory => 7,
            WCDBErrorCode::Readonly => 8,
            WCDBErrorCode::Interrupt => 9,
            WCDBErrorCode::IOError => 10,
            WCDBErrorCode::Corrupt => 11,
            WCDBErrorCode::NotFound => 12,
            WCDBErrorCode::Full => 13,
            WCDBErrorCode::CantOpen => 14,
            WCDBErrorCode::Protocol => 15,
            WCDBErrorCode::Empty => 16,
            WCDBErrorCode::Schema => 17,
            WCDBErrorCode::Exceed => 18,
            WCDBErrorCode::Constraint => 19,
            WCDBErrorCode::Mismatch => 20,
            WCDBErrorCode::Misuse => 21,
            WCDBErrorCode::NoLargeFileSupport => 22,
            WCDBErrorCode::Authorization => 23,
            WCDBErrorCode::Format => 24,
            WCDBErrorCode::Range => 25,
            WCDBErrorCode::NotADatabase => 26,
            WCDBErrorCode::Notice => 27,
            WCDBErrorCode::Warning => 28,
            WCDBErrorCode::Row => 100,
            WCDBErrorCode::Done => 101,
        }
    }

    /// The primary code whose numeric value is `v`, for specifications.
    pub open spec fn spec_from_raw(v: i32) -> Option<WCDBErrorCode> {
        if v == 0 {
            Some(WCDBErrorCode::OK)
        } else if v == 1 {
            Some(WCDBErrorCode::Error)
        } else if v == 2 {
            Some(WCDBErrorCode::Internal)
        } else if v == 3 {
            Some(WCDBErrorCode::Permission)
        } else if v == 4 {
            Some(WCDBErrorCode::Abort)
        } else if v == 5 {
            Some(WCDBErrorCode::Busy)
        } else if v == 6 {
            Some(WCDBErrorCode::Locked)
        } else if v == 7 {
            Some(WCDBErrorCode::NoMemory)
        } else if v == 8 {
            Some(WCDBErrorCode::Readonly)
        } else if v == 9 {
            Some(WCDBErrorCode::Interrupt)
        } else if v == 10 {
            Some(WCDBErrorCode::IOError)
        } else if v == 11 {
            Some(WCDBErrorCode::Corrupt)
        } else if v == 12 {
            Some(WCDBErrorCode::NotFound)
        } else if v == 13 {
            Some(WCDBErrorCode::Full)
        } else if v == 14 {
            Some(WCDBErrorCode::CantOpen)
        } else if v == 15 {
            Some(WCDBErrorCode::Protocol)
        } else if v == 16 {
            Some(WCDBErrorCode::Empty)
        } else if v == 17 {
            Some(WCDBErrorCode::Schema)
        } else if v == 18 {
            Some(WCDBErrorCode::Exceed)
        } else if v == 19 {
            Some(WCDBErrorCode::Constraint)
        } else if v == 20 {
            Some(WCDBErrorCode::Mismatch)
        } else if v == 21 {
            Some(WCDBErrorCode::Misuse)
        } else if v == 22 {
            Some(WCDBErrorCode::NoLargeFileSupport)
        } else if v == 23 {
            Some(WCDBErrorCode::Authorization)
        } else if v == 24 {
            Some(WCDBErrorCode::Format)
        } else if v == 25 {
            Some(WCDBErrorCode::Range)
        } else if v == 26 {
            Some(WCDBErrorCode::NotADatabase)
        } else if v == 27 {
            Some(WCDBErrorCode::Notice)
        } else if v == 28 {
            Some(WCDBErrorCode::Warning)
        } else if v == 100 {
            Some(WCDBErrorCode::Row)
        } else if v == 101 {
            Some(WCDBErrorCode::Done)
        } else {
            None
        }
    }

    /// The primary code whose numeric value is `v`, if any.
    pub fn from_raw(v: i32) -> (r: Option<WCDBErrorCode>)
        ensures
            r == WCDBErrorCode::spec_from_raw(v),
    {
        match v {
            0 => Some(WCDBErrorCode::OK),
            1 => Some(WCDBErrorCode::Error),
            2 => Some(WCDBErrorCode::Internal),
            3 => Some(WCDBErrorCode::Permission),
            4 => Some(WCDBErrorCode::Abort),
            5 => Some(WCDBErrorCode::Busy),
            6 => Some(WCDBErrorCode::Locked),
            7 => Some(WCDBErrorCode::NoMemory),
            8 => Some(WCDBErrorCode::Readonly),
            9 => Some(WCDBErrorCode::Interrupt),
            10 => Some(WCDBErrorCode::IOError),
            11 => Some(WCDBErrorCode::Corrupt),
            12 => Some(WCDBErrorCode::NotFound),
            13 => Some(WCDBErrorCode::Full),
            14 => Some(WCDBErrorCode::CantOpen),
            15 => Some(WCDBErrorCode::Protocol),
            16 => Some(WCDBErrorCode::Empty),
            17 => Some(WCDBErrorCode::Schema),
            18 => Some(WCDBErrorCode::Exceed),
            19 => Some(WCDBErrorCode::Constraint),
            20 => Some(WCDBErrorCode::Mismatch),
            21 => Some(WCDBErrorCode::Misuse),
            22 => Some(WCDBErrorCode::NoLargeFileSupport),
            23 => Some(WCDBErrorCode::Authorization),
            24 => Some(WCDBErrorCode::Format),
            25 => Some(WCDBErrorCode::Range),
            26 => Some(WCDBErrorCode::NotADatabase),
            27 => Some(WCDBErrorCode::Notice),
            28 => Some(WCDBErrorCode::Warning),
            100 => Some(WCDBErrorCode::Row),
            101 => Some(WCDBErrorCode::Done),
            _ => None,
        }
    }
}

impl WCDBExtendErrorCode {
    /// The numeric value of this extended code, for specifications.
    pub open spec fn ext_value(self) -> i32 {
        match self {
            WCDBExtendErrorCode::ErrorMissingCollseq => 257,
            WCDBExtendErrorCode::ErrorRetry => 513,
            WCDBExtendErrorCode::ErrorSnapshot => 769,
            WCDBExtendErrorCode::IOErrorRead => 266,
            WCDBExtendErrorCode::IOErrorShortRead => 522,
            WCDBExtendErrorCode::IOErrorWrite => 778,
            WCDBExtendErrorCode::IOErrorFsync => 1034,
            WCDBExtendErrorCode::IOErrorDirFsync => 1290,
            WCDBExtendErrorCode::IOErrorTruncate => 1546,
            WCDBExtendErrorCode::IOErrorFstat => 1802,
            WCDBExtendErrorCode::IOErrorUnlock => 2058,
            WCDBExtendErrorCode::IOErrorRdlock => 2314,
            WCDBExtendErrorCode::IOErrorDelete => 2570,
            WCDBExtendErrorCode::IOErrorBlocked => 2826,
            WCDBExtendErrorCode::IOErrorNoMemory => 3082,
            WCDBExtendErrorCode::IOErrorAccess => 3338,
            WCDBExtendErrorCode::IOErrorCheckReservedLock => 3594,
            WCDBExtendErrorCode::IOErrorLock => 3850,
            WCDBExtendErrorCode::IOErrorClose => 4106,
            WCDBExtendErrorCode::IOErrorDirClose => 4362,
            WCDBExtendErrorCode::IOErrorShmOpen => 4618,
            WCDBExtendErrorCode::IOErrorShmSize => 4874,
            WCDBExtendErrorCode::IOErrorShmLock => 5130,
            WCDBExtendErrorCode::IOErrorShmMap => 5386,
            WCDBExtendErrorCode::IOErrorSeek => 5642,
            WCDBExtendErrorCode::IOErrorDeleteNoEntry => 5898,
            WCDBExtendErrorCode::IOErrorMmap => 6154,
            WCDBExtendErrorCode::IOErrorGetTempPath => 6410,
            WCDBExtendErrorCode::IOErrorConvPath => 6666,
            WCDBExtendErrorCode::IOErrorVnode => 6922,
            WCDBExtendErrorCode::IOErrorAuthorization => 7178,
            WCDBExtendErrorCode::IOErrorBeginAtomic => 7434,
            WCDBExtendErrorCode::IOErrorCommitAtomic => 7690,
            WCDBExtendErrorCode::IOErrorRollbackAtomic => 7946,
            WCDBExtendErrorCode::LockedSharedCache => 262,
            WCDBExtendErrorCode::LockedVirtualTable => 518,
            WCDBExtendErrorCode::BusyRecovery => 261,
            WCDBExtendErrorCode::BusySnapshot => 517,
            WCDBExtendErrorCode::CantOpenNoTempDir => 270,
            WCDBExtendErrorCode::CantOpenIsDir => 526,
            WCDBExtendErrorCode::CantOpenFullPath => 782,
            WCDBExtendErrorCode::CantOpenConvPath => 1038,
            WCDBExtendErrorCode::CantOpenDirtyWal => 1294,
            WCDBExtendErrorCode::CorruptVirtualTable => 267,
            WCDBExtendErrorCode::CorruptSequence => 523,
            WCDBExtendErrorCode::ReadonlyRecovery => 264,
            WCDBExtendErrorCode::ReadonlyCantLock => 520,
            WCDBExtendErrorCode::ReadonlyRollback => 776,
            WCDBExtendErrorCode::ReadonlyDatabaseMoved => 1032,
            WCDBExtendErrorCode::ReadonlyCantInit => 1288,
            WCDBExtendErrorCode::ReadonlyDirectory => 1544,
            WCDBExtendErrorCode::AbortRollback => 516,
            WCDBExtendErrorCode::ConstraintCheck => 275,
            WCDBExtendErrorCode::ConstraintCommitHook => 531,
            WCDBExtendErrorCode::ConstraintForeignKey => 787,
            WCDBExtendErrorCode::ConstraintFunction => 1043,
            WCDBExtendErrorCode::ConstraintNotNull => 1299,
            WCDBExtendErrorCode::ConstraintPrimaryKey => 1555,
            WCDBExtendErrorCode::ConstraintTrigger => 1811,
            WCDBExtendErrorCode::ConstraintUnique => 2067,
            WCDBExtendErrorCode::ConstraintVirtualTable => 2323,
            WCDBExtendErrorCode::ConstraintRowID => 2579,
            WCDBExtendErrorCode::NoticeRecoverWal => 283,
            WCDBExtendErrorCode::NoticeRecoverRollback => 539,
            WCDBExtendErrorCode::WarningAutoIndex => 284,
            WCDBExtendErrorCode::AuthorizationUser => 279,
            WCDBExtendErrorCode::OKLoadPermanently => 256,
        }
    }

    /// The numeric value of this extended code.
    pub fn value(self) -> (r: i32)
        ensures
            r == self.ext_value(),
    {
        match self {
            WCDBExtendErrorCode::ErrorMissingCollseq => 257,
            WCDBExtendErrorCode::ErrorRetry => 513,
            WCDBExtendErrorCode::ErrorSnapshot => 769,
            WCDBExtendErrorCode::IOErrorRead => 266,
            WCDBExtendErrorCode::IOErrorShortRead => 522,
            WCDBExtendErrorCode::IOErrorWrite => 778,
            WCDBExtendErrorCode::IOErrorFsync => 1034,
            WCDBExtendErrorCode::IOErrorDirFsync => 1290,
            WCDBExtendErrorCode::IOErrorTruncate => 1546,
            WCDBExtendErrorCode::IOErrorFstat => 1802,
            WCDBExtendErrorCode::IOErrorUnlock => 2058,
            WCDBExtendErrorCode::IOErrorRdlock => 2314,
            WCDBExtendErrorCode::IOErrorDelete => 2570,
            WCDBExtendErrorCode::IOErrorBlocked => 2826,
            WCDBExtendErrorCode::IOErrorNoMemory => 3082,
            WCDBExtendErrorCode::IOErrorAccess => 3338,
            WCDBExtendErrorCode::IOErrorCheckReservedLock => 3594,
            WCDBExtendErrorCode::IOErrorLock => 3850,
            WCDBExtendErrorCode::IOErrorClose => 4106,
            WCDBExtendErrorCode::IOErrorDirClose => 4362,
            WCDBExtendErrorCode::IOErrorShmOpen => 4618,
            WCDBExtendErrorCode::IOErrorShmSize => 4874,
            WCDBExtendErrorCode::IOErrorShmLock => 5130,
            WCDBExtendErrorCode::IOErrorShmMap => 5386,
            WCDBExtendErrorCode::IOErrorSeek => 5642,
            WCDBExtendErrorCode::IOErrorDeleteNoEntry => 5898,
            WCDBExtendErrorCode::IOErrorMmap => 6154,
            WCDBExtendErrorCode::IOErrorGetTempPath => 6410,
            WCDBExtendErrorCode::IOErrorConvPath => 6666,
            WCDBExtendErrorCode::IOErrorVnode => 6922,
            WCDBExtendErrorCode::IOErrorAuthorization => 7178,
            WCDBExtendErrorCode::IOErrorBeginAtomic => 7434,
            WCDBExtendErrorCode::IOErrorCommitAtomic => 7690,
            WCDBExtendErrorCode::IOErrorRollbackAtomic => 7946,
            WCDBExtendErrorCode::LockedSharedCache => 262,
            WCDBExtendErrorCode::LockedVirtualTable => 518,
            WCDBExtendErrorCode::BusyRecovery => 261,
            WCDBExtendErrorCode::BusySnapshot => 517,
            WCDBExtendErrorCode::CantOpenNoTempDir => 270,
            WCDBExtendErrorCode::CantOpenIsDir => 526,
            WCDBExtendErrorCode::CantOpenFullPath => 782,
            WCDBExtendErrorCode::CantOpenConvPath => 1038,
            WCDBExtendErrorCode::CantOpenDirtyWal => 1294,
            WCDBExtendErrorCode::CorruptVirtualTable => 267,
            WCDBExtendErrorCode::CorruptSequence => 523,
            WCDBExtendErrorCode::ReadonlyRecovery => 264,
            WCDBExtendErrorCode::ReadonlyCantLock => 520,
            WCDBExtendErrorCode::ReadonlyRollback => 776,
            WCDBExtendErrorCode::ReadonlyDatabaseMoved => 1032,
            WCDBExtendErrorCode::ReadonlyCantInit => 1288,
            WCDBExtendErrorCode::ReadonlyDirectory => 1544,
            WCDBExtendErrorCode::AbortRollback => 516,
            WCDBExtendErrorCode::ConstraintCheck => 275,
            WCDBExtendErrorCode::ConstraintCommitHook => 531,
            WCDBExtendErrorCode::ConstraintForeignKey => 787,
            WCDBExtendErrorCode::ConstraintFunction => 1043,
            WCDBExtendErrorCode::ConstraintNotNull => 1299,
            WCDBExtendErrorCode::ConstraintPrimaryKey => 1555,
            WCDBExtendErrorCode::ConstraintTrigger => 1811,
            WCDBExtendErrorCode::ConstraintUnique => 2067,
            WCDBExtendErrorCode::ConstraintVirtualTable => 2323,
            WCDBExtendErrorCode::ConstraintRowID => 2579,
            WCDBExtendErrorCode::NoticeRecoverWal => 283,
            WCDBExtendErrorCode::NoticeRecoverRollback => 539,
            WCDBExtendErrorCode::WarningAutoIndex => 284,
            WCDBExtendErrorCode::AuthorizationUser => 279,
            WCDBExtendErrorCode::OKLoadPermanently => 256,
        }
    }

    /// The primary code this extended code refines, for specifications.
    pub open spec fn primary(self) -> WCDBErrorCode {
        match self {
            WCDBExtendErrorCode::ErrorMissingCollseq => WCDBErrorCode::Error,
            WCDBExtendErrorCode::ErrorRetry => WCDBErrorCode::Error,
            WCDBExtendErrorCode::ErrorSnapshot => WCDBErrorCode::Error,
            WCDBExtendErrorCode::IOErrorRead => WCDBErrorCode::IOError,
            WCDBExtendErrorCode::IOErrorShortRead => WCDBErrorCode::IOError,
            WCDBExtendErrorCode::IOErrorWrite => WCDBErrorCode::IOError,
            WCDBExtendErrorCode::IOErrorFsync => WCDBErrorCode::IOError,
            WCDBExtendErrorCode::IOErrorDirFsync => WCDBErrorCode::IOError,
            WCDBExtendErrorCode::IOErrorTruncate => WCDBErrorCode::IOError,
            WCDBExtendErrorCode::IOErrorFstat => WCDBErrorCode::IOError,
            WCDBExtendErrorCode::IOErrorUnlock => WCDBErrorCode::IOError,
            WCDBExtendErrorCode::IOErrorRdlock => WCDBErrorCode::IOError,
            WCDBExtendErrorCode::IOErrorDelete => WCDBErrorCode::IOError,
            WCDBExtendErrorCode::IOErrorBlocked => WCDBErrorCode::IOError,
            WCDBExtendErrorCode::IOErrorNoMemory => WCDBErrorCode::IOError,
            WCDBExtendErrorCode::IOErrorAccess => WCDBErrorCode::IOError,
            WCDBExtendErrorCode::IOErrorCheckReservedLock => WCDBErrorCode::IOError,
            WCDBExtendErrorCode::IOErrorLock => WCDBErrorCode::IOError,
            WCDBExtendErrorCode::IOErrorClose => WCDBErrorCode::IOError,
            WCDBExtendErrorCode::IOErrorDirClose => WCDBErrorCode::IOError,
            WCDBExtendErrorCode::IOErrorShmOpen => WCDBErrorCode::IOError,
            WCDBExtendErrorCode::IOErrorShmSize => WCDBErrorCode::IOError,
            WCDBExtendErrorCode::IOErrorShmLock => WCDBErrorCode::IOError,
            WCDBExtendErrorCode::IOErrorShmMap => WCDBErrorCode::IOError,
            WCDBExtendErrorCode::IOErrorSeek => WCDBErrorCode::IOError,
            WCDBExtendErrorCode::IOErrorDeleteNoEntry => WCDBErrorCode::IOError,
            WCDBExtendErrorCode::IOErrorMmap => WCDBErrorCode::IOError,
            WCDBExtendErrorCode::IOErrorGetTempPath => WCDBErrorCode::IOError,
            WCDBExtendErrorCode::IOErrorConvPath => WCDBErrorCode::IOError,
            WCDBExtendErrorCode::IOErrorVnode => WCDBErrorCode::IOError,
            WCDBExtendErrorCode::IOErrorAuthorization => WCDBErrorCode::IOError,
            WCDBExtendErrorCode::IOErrorBeginAtomic => WCDBErrorCode::IOError,
            WCDBExtendErrorCode::IOErrorCommitAtomic => WCDBErrorCode::IOError,
            WCDBExtendErrorCode::IOErrorRollbackAtomic => WCDBErrorCode::IOError,
            WCDBExtendErrorCode::LockedSharedCache => WCDBErrorCode::Locked,
            WCDBExtendErrorCode::LockedVirtualTable => WCDBErrorCode::Locked,
            WCDBExtendErrorCode::BusyRecovery => WCDBErrorCode::Busy,
            WCDBExtendErrorCode::BusySnapshot => WCDBErrorCode::Busy,
            WCDBExtendErrorCode::CantOpenNoTempDir => WCDBErrorCode::CantOpen,
            WCDBExtendErrorCode::CantOpenIsDir => WCDBErrorCode::CantOpen,
            WCDBExtendErrorCode::CantOpenFullPath => WCDBErrorCode::CantOpen,
            WCDBExtendErrorCode::CantOpenConvPath => WCDBErrorCode::CantOpen,
            WCDBExtendErrorCode::CantOpenDirtyWal => WCDBErrorCode::CantOpen,
            WCDBExtendErrorCode::CorruptVirtualTable => WCDBErrorCode::Corrupt,
            WCDBExtendErrorCode::CorruptSequence => WCDBErrorCode::Corrupt,
            WCDBExtendErrorCode::ReadonlyRecovery => WCDBErrorCode::Readonly,
            WCDBExtendErrorCode::ReadonlyCantLock => WCDBErrorCode::Readonly,
            WCDBExtendErrorCode::ReadonlyRollback => WCDBErrorCode::Readonly,
            WCDBExtendErrorCode::ReadonlyDatabaseMoved => WCDBErrorCode::Readonly,
            WCDBExtendErrorCode::ReadonlyCantInit => WCDBErrorCode::Readonly,
            WCDBExtendErrorCode::ReadonlyDirectory => WCDBErrorCode::Readonly,
            WCDBExtendErrorCode::AbortRollback => WCDBErrorCode::Abort,
            WCDBExtendErrorCode::ConstraintCheck => WCDBErrorCode::Constraint,
            WCDBExtendErrorCode::ConstraintCommitHook => WCDBErrorCode::Constraint,
            WCDBExtendErrorCode::ConstraintForeignKey => WCDBErrorCode::Constraint,
            WCDBExtendErrorCode::ConstraintFunction => WCDBErrorCode::Constraint,
            WCDBExtendErrorCode::ConstraintNotNull => WCDBErrorCode::Constraint,
            WCDBExtendErrorCode::ConstraintPrimaryKey => WCDBErrorCode::Constraint,
            WCDBExtendErrorCode::ConstraintTrigger => WCDBErrorCode::Constraint,
            WCDBExtendErrorCode::ConstraintUnique => WCDBErrorCode::Constraint,
            WCDBExtendErrorCode::ConstraintVirtualTable => WCDBErrorCode::Constraint,
            WCDBExtendErrorCode::ConstraintRowID => WCDBErrorCode::Constraint,
            WCDBExtendErrorCode::NoticeRecoverWal => WCDBErrorCode::Notice,
            WCDBExtendErrorCode::NoticeRecoverRollback => WCDBErrorCode::Notice,
            WCDBExtendErrorCode::WarningAutoIndex => WCDBErrorCode::Warning,
            WCDBExtendErrorCode::AuthorizationUser => WCDBErrorCode::Authorization,
            WCDBExtendErrorCode::OKLoadPermanently => WCDBErrorCode::OK,
        }
    }

    /// The secondary reason number of this extended code, for
    /// specifications.
    pub open spec fn secondary(self) -> i32 {
        match self {
            WCDBExtendErrorCode::ErrorMissingCollseq => 1,
            WCDBExtendErrorCode::ErrorRetry => 2,
            WCDBExtendErrorCode::ErrorSnapshot => 3,
            WCDBExtendErrorCode::IOErrorRead => 1,
            WCDBExtendErrorCode::IOErrorShortRead => 2,
            WCDBExtendErrorCode::IOErrorWrite => 3,
            WCDBExtendErrorCode::IOErrorFsync => 4,
            WCDBExtendErrorCode::IOErrorDirFsync => 5,
            WCDBExtendErrorCode::IOErrorTruncate => 6,
            WCDBExtendErrorCode::IOErrorFstat => 7,
            WCDBExtendErrorCode::IOErrorUnlock => 8,
            WCDBExtendErrorCode::IOErrorRdlock => 9,
            WCDBExtendErrorCode::IOErrorDelete => 10,
            WCDBExtendErrorCode::IOErrorBlocked => 11,
            WCDBExtendErrorCode::IOErrorNoMemory => 12,
            WCDBExtendErrorCode::IOErrorAccess => 13,
            WCDBExtendErrorCode::IOErrorCheckReservedLock => 14,
            WCDBExtendErrorCode::IOErrorLock => 15,
            WCDBExtendErrorCode::IOErrorClose => 16,
            WCDBExtendErrorCode::IOErrorDirClose => 17,
            WCDBExtendErrorCode::IOErrorShmOpen => 18,
            WCDBExtendErrorCode::IOErrorShmSize => 19,
            WCDBExtendErrorCode::IOErrorShmLock => 20,
            WCDBExtendErrorCode::IOErrorShmMap => 21,
            WCDBExtendErrorCode::IOErrorSeek => 22,
            WCDBExtendErrorCode::IOErrorDeleteNoEntry => 23,
            WCDBExtendErrorCode::IOErrorMmap => 24,
            WCDBExtendErrorCode::IOErrorGetTempPath => 25,
            WCDBExtendErrorCode::IOErrorConvPath => 26,
            WCDBExtendErrorCode::IOErrorVnode => 27,
            WCDBExtendErrorCode::IOErrorAuthorization => 28,
            WCDBExtendErrorCode::IOErrorBeginAtomic => 29,
            WCDBExtendErrorCode::IOErrorCommitAtomic => 30,
            WCDBExtendErrorCode::IOErrorRollbackAtomic => 31,
            WCDBExtendErrorCode::LockedSharedCache => 1,
            WCDBExtendErrorCode::LockedVirtualTable => 2,
            WCDBExtendErrorCode::BusyRecovery => 1,
            WCDBExtendErrorCode::BusySnapshot => 2,
            WCDBExtendErrorCode::CantOpenNoTempDir => 1,
            WCDBExtendErrorCode::CantOpenIsDir => 2,
            WCDBExtendErrorCode::CantOpenFullPath => 3,
            WCDBExtendErrorCode::CantOpenConvPath => 4,
            WCDBExtendErrorCode::CantOpenDirtyWal => 5,
            WCDBExtendErrorCode::CorruptVirtualTable => 1,
            WCDBExtendErrorCode::CorruptSequence => 2,
            WCDBExtendErrorCode::ReadonlyRecovery => 1,
            WCDBExtendErrorCode::ReadonlyCantLock => 2,
            WCDBExtendErrorCode::ReadonlyRollback => 3,
            WCDBExtendErrorCode::ReadonlyDatabaseMoved => 4,
            WCDBExtendErrorCode::ReadonlyCantInit => 5,
            WCDBExtendErrorCode::ReadonlyDirectory => 6,
            WCDBExtendErrorCode::AbortRollback => 2,
            WCDBExtendErrorCode::ConstraintCheck => 1,
            WCDBExtendErrorCode::ConstraintCommitHook => 2,
            WCDBExtendErrorCode::ConstraintForeignKey => 3,
            WCDBExtendErrorCode::ConstraintFunction => 4,
            WCDBExtendErrorCode::ConstraintNotNull => 5,
            WCDBExtendErrorCode::ConstraintPrimaryKey => 6,
            WCDBExtendErrorCode::ConstraintTrigger => 7,
            WCDBExtendErrorCode::ConstraintUnique => 8,
            WCDBExtendErrorCode::ConstraintVirtualTable => 9,
            WCDBExtendErrorCode::ConstraintRowID => 10,
            WCDBExtendErrorCode::NoticeRecoverWal => 1,
            WCDBExtendErrorCode::NoticeRecoverRollback => 2,
            WCDBExtendErrorCode::WarningAutoIndex => 1,
            WCDBExtendErrorCode::AuthorizationUser => 1,
            WCDBExtendErrorCode::OKLoadPermanently => 1,
        }
    }

    /// The extended code whose numeric value is `v`, for specifications.
    pub open spec fn spec_from_raw(v: i32) -> Option<WCDBExtendErrorCode> {
        if v == 257 {
            Some(WCDBExtendErrorCode::ErrorMissingCollseq)
        } else if v == 513 {
            Some(WCDBExtendErrorCode::ErrorRetry)
        } else if v == 769 {
            Some(WCDBExtendErrorCode::ErrorSnapshot)
        } else if v == 266 {
            Some(WCDBExtendErrorCode::IOErrorRead)
        } else if v == 522 {
            Some(WCDBExtendErrorCode::IOErrorShortRead)
        } else if v == 778 {
            Some(WCDBExtendErrorCode::IOErrorWrite)
        } else if v == 1034 {
            Some(WCDBExtendErrorCode::IOErrorFsync)
        } else if v == 1290 {
            Some(WCDBExtendErrorCode::IOErrorDirFsync)
        } else if v == 1546 {
            Some(WCDBExtendErrorCode::IOErrorTruncate)
        } else if v == 1802 {
            Some(WCDBExtendErrorCode::IOErrorFstat)
        } else if v == 2058 {
            Some(WCDBExtendErrorCode::IOErrorUnlock)
        } else if v == 2314 {
            Some(WCDBExtendErrorCode::IOErrorRdlock)
        } else if v == 2570 {
            Some(WCDBExtendErrorCode::IOErrorDelete)
        } else if v == 2826 {
            Some(WCDBExtendErrorCode::IOErrorBlocked)
        } else if v == 3082 {
            Some(WCDBExtendErrorCode::IOErrorNoMemory)
        } else if v == 3338 {
            Some(WCDBExtendErrorCode::IOErrorAccess)
        } else if v == 3594 {
            Some(WCDBExtendErrorCode::IOErrorCheckReservedLock)
        } else if v == 3850 {
            Some(WCDBExtendErrorCode::IOErrorLock)
        } else if v == 4106 {
            Some(WCDBExtendErrorCode::IOErrorClose)
        } else if v == 4362 {
            Some(WCDBExtendErrorCode::IOErrorDirClose)
        } else if v == 4618 {
            Some(WCDBExtendErrorCode::IOErrorShmOpen)
        } else if v == 4874 {
            Some(WCDBExtendErrorCode::IOErrorShmSize)
        } else if v == 5130 {
            Some(WCDBExtendErrorCode::IOErrorShmLock)
        } else if v == 5386 {
            Some(WCDBExtendErrorCode::IOErrorShmMap)
        } else if v == 5642 {
            Some(WCDBExtendErrorCode::IOErrorSeek)
        } else if v == 5898 {
            Some(WCDBExtendErrorCode::IOErrorDeleteNoEntry)
        } else if v == 6154 {
            Some(WCDBExtendErrorCode::IOErrorMmap)
        } else if v == 6410 {
            Some(WCDBExtendErrorCode::IOErrorGetTempPath)
        } else if v == 6666 {
            Some(WCDBExtendErrorCode::IOErrorConvPath)
        } else if v == 6922 {
            Some(WCDBExtendErrorCode::IOErrorVnode)
        } else if v == 7178 {
            Some(WCDBExtendErrorCode::IOErrorAuthorization)
        } else if v == 7434 {
            Some(WCDBExtendErrorCode::IOErrorBeginAtomic)
        } else if v == 7690 {
            Some(WCDBExtendErrorCode::IOErrorCommitAtomic)
        } else if v == 7946 {
            Some(WCDBExtendErrorCode::IOErrorRollbackAtomic)
        } else if v == 262 {
            Some(WCDBExtendErrorCode::LockedSharedCache)
        } else if v == 518 {
            Some(WCDBExtendErrorCode::LockedVirtualTable)
        } else if v == 261 {
            Some(WCDBExtendErrorCode::BusyRecovery)
        } else if v == 517 {
            Some(WCDBExtendErrorCode::BusySnapshot)
        } else if v == 270 {
            Some(WCDBExtendErrorCode::CantOpenNoTempDir)
        } else if v == 526 {
            Some(WCDBExtendErrorCode::CantOpenIsDir)
        } else if v == 782 {
            Some(WCDBExtendErrorCode::CantOpenFullPath)
        } else if v == 1038 {
            Some(WCDBExtendErrorCode::CantOpenConvPath)
        } else if v == 1294 {
            Some(WCDBExtendErrorCode::CantOpenDirtyWal)
        } else if v == 267 {
            Some(WCDBExtendErrorCode::CorruptVirtualTable)
        } else if v == 523 {
            Some(WCDBExtendErrorCode::CorruptSequence)
        } else if v == 264 {
            Some(WCDBExtendErrorCode::ReadonlyRecovery)
        } else if v == 520 {
            Some(WCDBExtendErrorCode::ReadonlyCantLock)
        } else if v == 776 {
            Some(WCDBExtendErrorCode::ReadonlyRollback)
        } else if v == 1032 {
            Some(WCDBExtendErrorCode::ReadonlyDatabaseMoved)
        } else if v == 1288 {
            Some(WCDBExtendErrorCode::ReadonlyCantInit)
        } else if v == 1544 {
            Some(WCDBExtendErrorCode::ReadonlyDirectory)
        } else if v == 516 {
            Some(WCDBExtendErrorCode::AbortRollback)
        } else if v == 275 {
            Some(WCDBExtendErrorCode::ConstraintCheck)
        } else if v == 531 {
            Some(WCDBExtendErrorCode::ConstraintCommitHook)
        } else if v == 787 {
            Some(WCDBExtendErrorCode::ConstraintForeignKey)
        } else if v == 1043 {
            Some(WCDBExtendErrorCode::ConstraintFunction)
        } else if v == 1299 {
            Some(WCDBExtendErrorCode::ConstraintNotNull)
        } else if v == 1555 {
            Some(WCDBExtendErrorCode::ConstraintPrimaryKey)
        } else if v == 1811 {
            Some(WCDBExtendErrorCode::ConstraintTrigger)
        } else if v == 2067 {
            Some(WCDBExtendErrorCode::ConstraintUnique)
        } else if v == 2323 {
            Some(WCDBExtendErrorCode::ConstraintVirtualTable)
        } else if v == 2579 {
            Some(WCDBExtendErrorCode::ConstraintRowID)
        } else if v == 283 {
            Some(WCDBExtendErrorCode::NoticeRecoverWal)
        } else if v == 539 {
            Some(WCDBExtendErrorCode::NoticeRecoverRollback)
        } else if v == 284 {
            Some(WCDBExtendErrorCode::WarningAutoIndex)
        } else if v == 279 {
            Some(WCDBExtendErrorCode::AuthorizationUser)
        } else if v == 256 {
            Some(WCDBExtendErrorCode::OKLoadPermanently)
        } else {
            None
        }
    }

    /// The extended code whose numeric value is `v`, if any.
    pub fn from_raw(v: i32) -> (r: Option<WCDBExtendErrorCode>)
        ensures
            r == WCDBExtendErrorCode::spec_from_raw(v),
    {
        match v {
            257 => Some(WCDBExtendErrorCode::ErrorMissingCollseq),
            513 => Some(WCDBExtendErrorCode::ErrorRetry),
            769 => Some(WCDBExtendErrorCode::ErrorSnapshot),
            266 => Some(WCDBExtendErrorCode::IOErrorRead),
            522 => Some(WCDBExtendErrorCode::IOErrorShortRead),
            778 => Some(WCDBExtendErrorCode::IOErrorWrite),
            1034 => Some(WCDBExtendErrorCode::IOErrorFsync),
            1290 => Some(WCDBExtendErrorCode::IOErrorDirFsync),
            1546 => Some(WCDBExtendErrorCode::IOErrorTruncate),
            1802 => Some(WCDBExtendErrorCode::IOErrorFstat),
            2058 => Some(WCDBExtendErrorCode::IOErrorUnlock),
            2314 => Some(WCDBExtendErrorCode::IOErrorRdlock),
            2570 => Some(WCDBExtendErrorCode::IOErrorDelete),
            2826 => Some(WCDBExtendErrorCode::IOErrorBlocked),
            3082 => Some(WCDBExtendErrorCode::IOErrorNoMemory),
            3338 => Some(WCDBExtendErrorCode::IOErrorAccess),
            3594 => Some(WCDBExtendErrorCode::IOErrorCheckReservedLock),
            3850 => Some(WCDBExtendErrorCode::IOErrorLock),
            4106 => Some(WCDBExtendErrorCode::IOErrorClose),
            4362 => Some(WCDBExtendErrorCode::IOErrorDirClose),
            4618 => Some(WCDBExtendErrorCode::IOErrorShmOpen),
            4874 => Some(WCDBExtendErrorCode::IOErrorShmSize),
            5130 => Some(WCDBExtendErrorCode::IOErrorShmLock),
            5386 => Some(WCDBExtendErrorCode::IOErrorShmMap),
            5642 => Some(WCDBExtendErrorCode::IOErrorSeek),
            5898 => Some(WCDBExtendErrorCode::IOErrorDeleteNoEntry),
            6154 => Some(WCDBExtendErrorCode::IOErrorMmap),
            6410 => Some(WCDBExtendErrorCode::IOErrorGetTempPath),
            6666 => Some(WCDBExtendErrorCode::IOErrorConvPath),
            6922 => Some(WCDBExtendErrorCode::IOErrorVnode),
            7178 => Some(WCDBExtendErrorCode::IOErrorAuthorization),
            7434 => Some(WCDBExtendErrorCode::IOErrorBeginAtomic),
            7690 => Some(WCDBExtendErrorCode::IOErrorCommitAtomic),
            7946 => Some(WCDBExtendErrorCode::IOErrorRollbackAtomic),
            262 => Some(WCDBExtendErrorCode::LockedSharedCache),
            518 => Some(WCDBExtendErrorCode::LockedVirtualTable),
            261 => Some(WCDBExtendErrorCode::BusyRecovery),
            517 => Some(WCDBExtendErrorCode::BusySnapshot),
            270 => Some(WCDBExtendErrorCode::CantOpenNoTempDir),
            526 => Some(WCDBExtendErrorCode::CantOpenIsDir),
            782 => Some(WCDBExtendErrorCode::CantOpenFullPath),
            1038 => Some(WCDBExtendErrorCode::CantOpenConvPath),
            1294 => Some(WCDBExtendErrorCode::CantOpenDirtyWal),
            267 => Some(WCDBExtendErrorCode::CorruptVirtualTable),
            523 => Some(WCDBExtendErrorCode::CorruptSequence),
            264 => Some(WCDBExtendErrorCode::ReadonlyRecovery),
            520 => Some(WCDBExtendErrorCode::ReadonlyCantLock),
            776 => Some(WCDBExtendErrorCode::ReadonlyRollback),
            1032 => Some(WCDBExtendErrorCode::ReadonlyDatabaseMoved),
            1288 => Some(WCDBExtendErrorCode::ReadonlyCantInit),
            1544 => Some(WCDBExtendErrorCode::ReadonlyDirectory),
            516 => Some(WCDBExtendErrorCode::AbortRollback),
            275 => Some(WCDBExtendErrorCode::ConstraintCheck),
            531 => Some(WCDBExtendErrorCode::ConstraintCommitHook),
            787 => Some(WCDBExtendErrorCode::ConstraintForeignKey),
            1043 => Some(WCDBExtendErrorCode::ConstraintFunction),
            1299 => Some(WCDBExtendErrorCode::ConstraintNotNull),
            1555 => Some(WCDBExtendErrorCode::ConstraintPrimaryKey),
            1811 => Some(WCDBExtendErrorCode::ConstraintTrigger),
            2067 => Some(WCDBExtendErrorCode::ConstraintUnique),
            2323 => Some(WCDBExtendErrorCode::ConstraintVirtualTable),
            2579 => Some(WCDBExtendErrorCode::ConstraintRowID),
            283 => Some(WCDBExtendErrorCode::NoticeRecoverWal),
            539 => Some(WCDBExtendErrorCode::NoticeRecoverRollback),
            284 => Some(WCDBExtendErrorCode::WarningAutoIndex),
            279 => Some(WCDBExtendErrorCode::AuthorizationUser),
            256 => Some(WCDBExtendErrorCode::OKLoadPermanently),
            _ => None,
        }
    }
}

/// Every extended code is its primary code with a nonzero secondary reason
/// shifted into the high bytes: `value == primary + 256 * secondary`.
pub proof fn lemma_extended_code_decomposition(e: WCDBExtendErrorCode)
    ensures
        e.ext_value() == e.primary().code_value() + 256 * e.secondary(),
        1 <= e.secondary() <= 31,
{
}

impl WCDBErrorLevel {
    /// The numeric value of this severity, for specifications; greater means
    /// graver.
    pub open spec fn level_value(self) -> i32 {
        match self {
            WCDBErrorLevel::Ignore => 1,
            WCDBErrorLevel::Debug => 2,
            WCDBErrorLevel::Notice => 3,
            WCDBErrorLevel::Warning => 4,
            WCDBErrorLevel::Error => 5,
            WCDBErrorLevel::Fatal => 6,
        }
    }

    /// The numeric value of this severity; greater means graver.
    pub fn value(self) -> (r: i32)
        ensures
            r == self.level_value(),
    {
        match self {
            WCDBErrorLevel::Ignore => 1,
            WCDBErrorLevel::Debug => 2,
            WCDBErrorLevel::Notice => 3,
            WCDBErrorLevel::Warning => 4,
            WCDBErrorLevel::Error => 5,
            WCDBErrorLevel::Fatal => 6,
        }
    }

    /// The severity whose numeric value is `v`, for specifications.
    pub open spec fn spec_from_raw(v: i32) -> Option<WCDBErrorLevel> {
        if v == 1 {
            Some(WCDBErrorLevel::Ignore)
        } else if v == 2 {
            Some(WCDBErrorLevel::Debug)
        } else if v == 3 {
            Some(WCDBErrorLevel::Notice)
        } else if v == 4 {
            Some(WCDBErrorLevel::Warning)
        } else if v == 5 {
            Some(WCDBErrorLevel::Error)
        } else if v == 6 {
            Some(WCDBErrorLevel::Fatal)
        } else {
            None
        }
    }

    /// The severity whose numeric value is `v`, if any.
    pub fn from_raw(v: i32) -> (r: Option<WCDBErrorLevel>)
        ensures
            r == WCDBErrorLevel::spec_from_raw(v),
    {
        match v {
            1 => Some(WCDBErrorLevel::Ignore),
            2 => Some(WCDBErrorLevel::Debug),
            3 => Some(WCDBErrorLevel::Notice),
            4 => Some(WCDBErrorLevel::Warning),
            5 => Some(WCDBErrorLevel::Error),
            6 => Some(WCDBErrorLevel::Fatal),
            _ => None,
        }
    }
}


/// A best-effort typed value in the extra-info bag of a [`WCDBError`].
#[derive(Debug, Clone)]
pub enum WCDBExtraInfoValue {
    Int(i64),
    /// The engine's 8-byte floating value, carried as its raw bit pattern.
    Double(u64),
    Text(String),
}

/// One typed value the engine attaches to a diagnostic key. The engine hands
/// such values over in a tagged slot; `Double` carries the 8-byte floating
/// value as its raw bit pattern, and `Other` stands for every kind of value
/// this library does not model.
#[derive(Debug, Clone)]
pub enum EngineValue {
    Int(i64),
    Double(u64),
    Text(String),
    Other,
}

/// The raw error record the storage engine reports: a numeric severity and
/// primary code read eagerly, an optional message, and the diagnostic
/// key/value pairs the engine enumerates.
#[derive(Debug, Clone)]
pub struct EngineError {
    pub level: i64,
    pub code: i64,
    pub message: Option<String>,
    pub infos: Vec<(String, EngineValue)>,
}

/// A structured, typed record of one engine-reported failure.
#[derive(Debug)]
pub struct WCDBError {
    pub level: WCDBErrorLevel,
    pub code: WCDBErrorCode,
    pub tag: Option<Tag>,
    pub extended_code: Option<WCDBExtendErrorCode>,
    pub message: Option<String>,
    pub source: Option<String>,
    pub sql: Option<String>,
    pub path: Option<String>,
    pub extra_info: Vec<(String, WCDBExtraInfoValue)>,
}

impl Default for WCDBError {
    /// An empty record: severity `Error`, code `OK`, nothing else set.
    fn default() -> (r: WCDBError)
        ensures
            r.level == WCDBErrorLevel::Error,
            r.code == WCDBErrorCode::OK,
            r.tag is None,
            r.extended_code is None,
            r.message is None,
            r.source is None,
            r.sql is None,
            r.path is None,
            r.extra_info@.len() == 0,
    {
        WCDBError {
            level: WCDBErrorLevel::Error,
            code: WCDBErrorCode::OK,
            tag: None,
            extended_code: None,
            message: None,
            source: None,
            sql: None,
            path: None,
            extra_info: Vec::new(),
        }
    }
}

impl WCDBErrorKey {
    /// The key a diagnostic name denotes, for specifications.
    pub open spec fn spec_of(s: Seq<char>) -> WCDBErrorKey {
        if s == "Tag"@ {
            WCDBErrorKey::Tag
        } else if s == "Path"@ {
            WCDBErrorKey::Path
        } else if s == "Type"@ {
            WCDBErrorKey::Type
        } else if s == "Source"@ {
            WCDBErrorKey::Source
        } else if s == "SQL"@ {
            WCDBErrorKey::Sql
        } else if s == "ExtCode"@ {
            WCDBErrorKey::ExtendedCode
        } else if s == "Message"@ {
            WCDBErrorKey::Message
        } else {
            WCDBErrorKey::Invalid
        }
    }

    /// The key the diagnostic name `s` denotes.
    pub fn from(s: &str) -> (r: WCDBErrorKey)
        ensures
            r == WCDBErrorKey::spec_of(s@),
    {
        let o = s.to_owned();
        if o == String::from_str("Tag") {
            WCDBErrorKey::Tag
        } else if o == String::from_str("Path") {
            WCDBErrorKey::Path
        } else if o == String::from_str("Type") {
            WCDBErrorKey::Type
        } else if o == String::from_str("Source") {
            WCDBErrorKey::Source
        } else if o == String::from_str("SQL") {
            WCDBErrorKey::Sql
        } else if o == String::from_str("ExtCode") {
            WCDBErrorKey::ExtendedCode
        } else if o == String::from_str("Message") {
            WCDBErrorKey::Message
        } else {
            WCDBErrorKey::Invalid
        }
    }
}

/// The integer slot of an engine value: the number itself for `Int`, the raw
/// bit pattern for `Double`, and `0` where the engine hands over no number.
pub open spec fn spec_int_facet(v: EngineValue) -> i64 {
    match v {
        EngineValue::Int(i) => i,
        EngineValue::Double(b) => b as i64,
        EngineValue::Text(_) => 0,
        EngineValue::Other => 0,
    }
}

fn int_facet(v: &EngineValue) -> (r: i64)
    ensures
        r == spec_int_facet(*v),
{
    match v {
        EngineValue::Int(i) => *i,
        EngineValue::Double(b) => #[verifier::truncate] (*b as i64),
        EngineValue::Text(_) => 0,
        EngineValue::Other => 0,
    }
}

/// The text of an engine value, if it is one.
pub open spec fn spec_text_facet(v: EngineValue) -> Option<Seq<char>> {
    match v {
        EngineValue::Text(s) => Some(s@),
        _ => None,
    }
}

fn text_facet(v: &EngineValue) -> (r: Option<String>)
    ensures
        r.deep_view() == spec_text_facet(*v),
{
    match v {
        EngineValue::Text(s) => Some(s.clone()),
        _ => None,
    }
}

/// Whether the extra-info value `x` is the best-effort conversion of the
/// engine value `v`: numbers and text carry over, anything else becomes the
/// text `Unknown`.
pub open spec fn spec_converted(x: WCDBExtraInfoValue, v: EngineValue) -> bool {
    match (x, v) {
        (WCDBExtraInfoValue::Int(a), EngineValue::Int(b)) => a == b,
        (WCDBExtraInfoValue::Double(a), EngineValue::Double(b)) => a == b,
        (WCDBExtraInfoValue::Text(s), EngineValue::Text(t)) => s@ == t@,
        (WCDBExtraInfoValue::Text(s), EngineValue::Other) => s@ == "Unknown"@,
        _ => false,
    }
}

fn convert_value(v: &EngineValue) -> (x: WCDBExtraInfoValue)
    ensures
        spec_converted(x, *v),
{
    match v {
        EngineValue::Int(i) => WCDBExtraInfoValue::Int(*i),
        EngineValue::Double(b) => WCDBExtraInfoValue::Double(*b),
        EngineValue::Text(s) => WCDBExtraInfoValue::Text(s.clone()),
        EngineValue::Other => WCDBExtraInfoValue::Text(String::from_str("Unknown")),
    }
}

/// The severity a raw record decodes to: unknown numbers fall back to
/// `Error`.
pub open spec fn spec_decoded_level(v: i64) -> WCDBErrorLevel {
    match WCDBErrorLevel::spec_from_raw(v as i32) {
        Some(l) => l,
        None => WCDBErrorLevel::Error,
    }
}

/// The primary code read eagerly from a raw record: unknown numbers fall
/// back to `OK`.
pub open spec fn spec_initial_code(v: i64) -> WCDBErrorCode {
    match WCDBErrorCode::spec_from_raw(v as i32) {
        Some(c) => c,
        None => WCDBErrorCode::OK,
    }
}

/// The primary code after walking the diagnostic pairs: the last `Type` pair
/// wins, and an unknown number falls back to the safe default `OK`, as the
/// eagerly read slot does.
pub open spec fn decoded_code(
    init: WCDBErrorCode,
    infos: Seq<(String, EngineValue)>,
) -> WCDBErrorCode
    decreases infos.len(),
{
    if infos.len() == 0 {
        init
    } else if WCDBErrorKey::spec_of(infos.last().0@) == WCDBErrorKey::Type {
        match WCDBErrorCode::spec_from_raw(spec_int_facet(infos.last().1) as i32) {
            Some(c) => c,
            None => WCDBErrorCode::OK,
        }
    } else {
        decoded_code(init, infos.drop_last())
    }
}

/// The tag after walking the diagnostic pairs: the last `Tag` pair wins.
pub open spec fn decoded_tag(infos: Seq<(String, EngineValue)>) -> Option<i32>
    decreases infos.len(),
{
    if infos.len() == 0 {
        None
    } else if WCDBErrorKey::spec_of(infos.last().0@) == WCDBErrorKey::Tag {
        Some(spec_int_facet(infos.last().1) as i32)
    } else {
        decoded_tag(infos.drop_last())
    }
}

/// The extended code after walking the diagnostic pairs: the last `ExtCode`
/// pair wins, unknown numbers fall back to the first extended code.
pub open spec fn decoded_ext(infos: Seq<(String, EngineValue)>) -> Option<WCDBExtendErrorCode>
    decreases infos.len(),
{
    if infos.len() == 0 {
        None
    } else if WCDBErrorKey::spec_of(infos.last().0@) == WCDBErrorKey::ExtendedCode {
        match WCDBExtendErrorCode::spec_from_raw(spec_int_facet(infos.last().1) as i32) {
            Some(e) => Some(e),
            None => Some(WCDBExtendErrorCode::ErrorMissingCollseq),
        }
    } else {
        decoded_ext(infos.drop_last())
    }
}

/// A text field (`Path`, `Source` or `SQL`) after walking the diagnostic
/// pairs: the last pair under that key wins, a non-text value clears it.
pub open spec fn decoded_text(
    key: WCDBErrorKey,
    infos: Seq<(String, EngineValue)>,
) -> Option<Seq<char>>
    decreases infos.len(),
{
    if infos.len() == 0 {
        None
    } else if WCDBErrorKey::spec_of(infos.last().0@) == key {
        spec_text_facet(infos.last().1)
    } else {
        decoded_text(key, infos.drop_last())
    }
}

/// The diagnostic pairs under unrecognized keys, in enumeration order.
pub open spec fn spec_extra(infos: Seq<(String, EngineValue)>) -> Seq<(String, EngineValue)>
    decreases infos.len(),
{
    if infos.len() == 0 {
        Seq::empty()
    } else if WCDBErrorKey::spec_of(infos.last().0@) == WCDBErrorKey::Invalid {
        spec_extra(infos.drop_last()).push(infos.last())
    } else {
        spec_extra(infos.drop_last())
    }
}

/// Whether the stored extra-info entry `a` reproduces the raw pair `b`.
pub open spec fn extra_entry_ok(
    a: (String, WCDBExtraInfoValue),
    b: (String, EngineValue),
) -> bool {
    a.0@ == b.0@ && spec_converted(a.1, b.1)
}

impl WCDBError {
    /// Translates the raw record the engine reported into a structured
    /// error.
    ///
    /// Severity and primary code are read eagerly, with unknown numbers
    /// falling back to the safe defaults `Error` and `OK`; the diagnostic
    /// pairs are then walked once, recognized keys landing in typed fields
    /// (a `Type` pair overrides the eagerly read code, the last writer
    /// winning, with the same `OK` fallback for an unknown number) and
    /// every pair under an unrecognized key falling into the extra-info
    /// bag.
    pub fn from(err: &EngineError) -> (r: WCDBError)
        ensures
            r.level == spec_decoded_level(err.level),
            r.code == decoded_code(spec_initial_code(err.code), err.infos@),
            r.message == err.message,
            r.tag == decoded_tag(err.infos@),
            r.extended_code == decoded_ext(err.infos@),
            r.path.deep_view() == decoded_text(WCDBErrorKey::Path, err.infos@),
            r.source.deep_view() == decoded_text(WCDBErrorKey::Source, err.infos@),
            r.sql.deep_view() == decoded_text(WCDBErrorKey::Sql, err.infos@),
            r.extra_info@.len() == spec_extra(err.infos@).len(),
            forall|j: int|
                0 <= j < r.extra_info@.len() ==> extra_entry_ok(
                    #[trigger] r.extra_info@[j],
                    spec_extra(err.infos@)[j],
                ),
    {
        let level = match WCDBErrorLevel::from_raw(#[verifier::truncate] (err.level as i32)) {
            Some(l) => l,
            None => WCDBErrorLevel::Error,
        };
        let code = match WCDBErrorCode::from_raw(#[verifier::truncate] (err.code as i32)) {
            Some(c) => c,
            None => WCDBErrorCode::OK,
        };
        let message = match &err.message {
            Some(m) => Some(m.clone()),
            None => None,
        };
        let mut r = WCDBError {
            level,
            code,
            tag: None,
            extended_code: None,
            message,
            source: None,
            sql: None,
            path: None,
            extra_info: Vec::new(),
        };
        let mut i: usize = 0;
        while i < err.infos.len()
            invariant
                i <= err.infos.len(),
                r.level == spec_decoded_level(err.level),
                r.message == err.message,
                r.code == decoded_code(spec_initial_code(err.code), err.infos@.take(i as int)),
                r.tag == decoded_tag(err.infos@.take(i as int)),
                r.extended_code == decoded_ext(err.infos@.take(i as int)),
                r.path.deep_view() == decoded_text(
                    WCDBErrorKey::Path,
                    err.infos@.take(i as int),
                ),
                r.source.deep_view() == decoded_text(
                    WCDBErrorKey::Source,
                    err.infos@.take(i as int),
                ),
                r.sql.deep_view() == decoded_text(WCDBErrorKey::Sql, err.infos@.take(i as int)),
                r.extra_info@.len() == spec_extra(err.infos@.take(i as int)).len(),
                forall|j: int|
                    0 <= j < r.extra_info@.len() ==> extra_entry_ok(
                        #[trigger] r.extra_info@[j],
                        spec_extra(err.infos@.take(i as int))[j],
                    ),
            decreases err.infos.len() - i,
        {
            let pair = &err.infos[i];
            let key = WCDBErrorKey::from(pair.0.as_str());
            proof {
                let pre = err.infos@.take(i as int);
                let post = err.infos@.take(i as int + 1);
                assert(post.drop_last() =~= pre);
                assert(post.last() == err.infos@[i as int]);
            }
            match key {
                WCDBErrorKey::Tag => {
                    r.tag = Some(#[verifier::truncate] (int_facet(&pair.1) as i32));
                },
                WCDBErrorKey::Path => {
                    r.path = text_facet(&pair.1);
                },
                WCDBErrorKey::Type => {
                    r.code = match WCDBErrorCode::from_raw(
                        #[verifier::truncate] (int_facet(&pair.1) as i32),
                    ) {
                        Some(c) => c,
                        None => WCDBErrorCode::OK,
                    };
                },
                WCDBErrorKey::Source => {
                    r.source = text_facet(&pair.1);
                },
                WCDBErrorKey::Sql => {
                    r.sql = text_facet(&pair.1);
                },
                WCDBErrorKey::ExtendedCode => {
                    r.extended_code = Some(
                        match WCDBExtendErrorCode::from_raw(
                            #[verifier::truncate] (int_facet(&pair.1) as i32),
                        ) {
                            Some(e) => e,
                            None => WCDBExtendErrorCode::ErrorMissingCollseq,
                        },
                    );
                },
                WCDBErrorKey::Message => {},
                WCDBErrorKey::Invalid => {
                    r.extra_info.push((pair.0.clone(), convert_value(&pair.1)));
                },
            }
            i = i + 1;
        }
        proof {
            assert(err.infos@.take(err.infos@.len() as int) =~= err.infos@);
        }
        r
    }
}

} // verus!
