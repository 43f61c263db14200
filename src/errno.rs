use vstd::prelude::*;

verus! {

/// Error numbers reported by the operating system: every number that Linux
/// defines, with its numbering.
///
/// `UnknownErrno` stands for a number that Linux does not define.
#[derive(Clone, Copy, Debug, PartialEq, Eq, Structural)]
pub enum Errno {
    UnknownErrno,
    EPERM,
    ENOENT,
    ESRCH,
    EINTR,
    EIO,
    ENXIO,
    E2BIG,
    ENOEXEC,
    EBADF,
    ECHILD,
    EAGAIN,
    ENOMEM,
    EACCES,
    EFAULT,
    ENOTBLK,
    EBUSY,
    EEXIST,
    EXDEV,
    ENODEV,
    ENOTDIR,
    EISDIR,
    EINVAL,
    ENFILE,
    EMFILE,
    ENOTTY,
    ETXTBSY,
    EFBIG,
    ENOSPC,
    ESPIPE,
    EROFS,
    EMLINK,
    EPIPE,
    EDOM,
    ERANGE,
    EDEADLK,
    ENAMETOOLONG,
    ENOLCK,
    ENOSYS,
    ENOTEMPTY,
    ELOOP,
    ENOMSG,
    EIDRM,
    ECHRNG,
    EL2NSYNC,
    EL3HLT,
    EL3RST,
    ELNRNG,
    EUNATCH,
    ENOCSI,
    EL2HLT,
    EBADE,
    EBADR,
    EXFULL,
    ENOANO,
    EBADRQC,
    EBADSLT,
    EBFONT,
    ENOSTR,
    ENODATA,
    ETIME,
    ENOSR,
    ENONET,
    ENOPKG,
    EREMOTE,
    ENOLINK,
    EADV,
    ESRMNT,
    ECOMM,
    EPROTO,
    EMULTIHOP,
    EDOTDOT,
    EBADMSG,
    EOVERFLOW,
    ENOTUNIQ,
    EBADFD,
    EREMCHG,
    ELIBACC,
    ELIBBAD,
    ELIBSCN,
    ELIBMAX,
    ELIBEXEC,
    EILSEQ,
    ERESTART,
    ESTRPIPE,
    EUSERS,
    ENOTSOCK,
    EDESTADDRREQ,
    EMSGSIZE,
    EPROTOTYPE,
    ENOPROTOOPT,
    EPROTONOSUPPORT,
    ESOCKTNOSUPPORT,
    EOPNOTSUPP,
    EPFNOSUPPORT,
    EAFNOSUPPORT,
    EADDRINUSE,
    EADDRNOTAVAIL,
    ENETDOWN,
    ENETUNREACH,
    ENETRESET,
    ECONNABORTED,
    ECONNRESET,
    ENOBUFS,
    EISCONN,
    ENOTCONN,
    ESHUTDOWN,
    ETOOMANYREFS,
    ETIMEDOUT,
    ECONNREFUSED,
    EHOSTDOWN,
    EHOSTUNREACH,
    EALREADY,
    EINPROGRESS,
    ESTALE,
    EUCLEAN,
    ENOTNAM,
    ENAVAIL,
    EISNAM,
    EREMOTEIO,
    EDQUOT,
    ENOMEDIUM,
    EMEDIUMTYPE,
    ECANCELED,
    ENOKEY,
    EKEYEXPIRED,
    EKEYREVOKED,
    EKEYREJECTED,
    EOWNERDEAD,
    ENOTRECOVERABLE,
    ERFKILL,
    EHWPOISON,
}

/// The largest error number that Linux defines.
pub const LAST_KNOWN_ERRNO: i32 = 133;

/// Whether Linux defines error number `code` (41 and 58 are not used).
pub open spec fn is_known_errno(code: i32) -> bool {
    1 <= code <= LAST_KNOWN_ERRNO && code != 41 && code != 58
}

/// The native number of an error.
pub open spec fn errno_code(e: Errno) -> i32 {
    match e {
        Errno::UnknownErrno => 0,
        Errno::EPERM => 1,
        Errno::ENOENT => 2,
        Errno::ESRCH => 3,
        Errno::EINTR => 4,
        Errno::EIO => 5,
        Errno::ENXIO => 6,
        Errno::E2BIG => 7,
        Errno::ENOEXEC => 8,
        Errno::EBADF => 9,
        Errno::ECHILD => 10,
        Errno::EAGAIN => 11,
        Errno::ENOMEM => 12,
        Errno::EACCES => 13,
        Errno::EFAULT => 14,
        Errno::ENOTBLK => 15,
        Errno::EBUSY => 16,
        Errno::EEXIST => 17,
        Errno::EXDEV => 18,
        Errno::ENODEV => 19,
        Errno::ENOTDIR => 20,
        Errno::EISDIR => 21,
        Errno::EINVAL => 22,
        Errno::ENFILE => 23,
        Errno::EMFILE => 24,
        Errno::ENOTTY => 25,
        Errno::ETXTBSY => 26,
        Errno::EFBIG => 27,
        Errno::ENOSPC => 28,
        Errno::ESPIPE => 29,
        Errno::EROFS => 30,
        Errno::EMLINK => 31,
        Errno::EPIPE => 32,
        Errno::EDOM => 33,
        Errno::ERANGE => 34,
        Errno::EDEADLK => 35,
        Errno::ENAMETOOLONG => 36,
        Errno::ENOLCK => 37,
        Errno::ENOSYS => 38,
        Errno::ENOTEMPTY => 39,
        Errno::ELOOP => 40,
        Errno::ENOMSG => 42,
        Errno::EIDRM => 43,
        Errno::ECHRNG => 44,
        Errno::EL2NSYNC => 45,
        Errno::EL3HLT => 46,
        Errno::EL3RST => 47,
        Errno::ELNRNG => 48,
        Errno::EUNATCH => 49,
        Errno::ENOCSI => 50,
        Errno::EL2HLT => 51,
        Errno::EBADE => 52,
        Errno::EBADR => 53,
        Errno::EXFULL => 54,
        Errno::ENOANO => 55,
        Errno::EBADRQC => 56,
        Errno::EBADSLT => 57,
        Errno::EBFONT => 59,
        Errno::ENOSTR => 60,
        Errno::ENODATA => 61,
        Errno::ETIME => 62,
        Errno::ENOSR => 63,
        Errno::ENONET => 64,
        Errno::ENOPKG => 65,
        Errno::EREMOTE => 66,
        Errno::ENOLINK => 67,
        Errno::EADV => 68,
        Errno::ESRMNT => 69,
        Errno::ECOMM => 70,
        Errno::EPROTO => 71,
        Errno::EMULTIHOP => 72,
        Errno::EDOTDOT => 73,
        Errno::EBADMSG => 74,
        Errno::EOVERFLOW => 75,
        Errno::ENOTUNIQ => 76,
        Errno::EBADFD => 77,
        Errno::EREMCHG => 78,
        Errno::ELIBACC => 79,
        Errno::ELIBBAD => 80,
        Errno::ELIBSCN => 81,
        Errno::ELIBMAX => 82,
        Errno::ELIBEXEC => 83,
        Errno::EILSEQ => 84,
        Errno::ERESTART => 85,
        Errno::ESTRPIPE => 86,
        Errno::EUSERS => 87,
        Errno::ENOTSOCK => 88,
        Errno::EDESTADDRREQ => 89,
        Errno::EMSGSIZE => 90,
        Errno::EPROTOTYPE => 91,
        Errno::ENOPROTOOPT => 92,
        Errno::EPROTONOSUPPORT => 93,
        Errno::ESOCKTNOSUPPORT => 94,
        Errno::EOPNOTSUPP => 95,
        Errno::EPFNOSUPPORT => 96,
        Errno::EAFNOSUPPORT => 97,
        Errno::EADDRINUSE => 98,
        Errno::EADDRNOTAVAIL => 99,
        Errno::ENETDOWN => 100,
        Errno::ENETUNREACH => 101,
        Errno::ENETRESET => 102,
        Errno::ECONNABORTED => 103,
        Errno::ECONNRESET => 104,
        Errno::ENOBUFS => 105,
        Errno::EISCONN => 106,
        Errno::ENOTCONN => 107,
        Errno::ESHUTDOWN => 108,
        Errno::ETOOMANYREFS => 109,
        Errno::ETIMEDOUT => 110,
        Errno::ECONNREFUSED => 111,
        Errno::EHOSTDOWN => 112,
        Errno::EHOSTUNREACH => 113,
        Errno::EALREADY => 114,
        Errno::EINPROGRESS => 115,
        Errno::ESTALE => 116,
        Errno::EUCLEAN => 117,
        Errno::ENOTNAM => 118,
        Errno::ENAVAIL => 119,
        Errno::EISNAM => 120,
        Errno::EREMOTEIO => 121,
        Errno::EDQUOT => 122,
        Errno::ENOMEDIUM => 123,
        Errno::EMEDIUMTYPE => 124,
        Errno::ECANCELED => 125,
        Errno::ENOKEY => 126,
        Errno::EKEYEXPIRED => 127,
        Errno::EKEYREVOKED => 128,
        Errno::EKEYREJECTED => 129,
        Errno::EOWNERDEAD => 130,
        Errno::ENOTRECOVERABLE => 131,
        Errno::ERFKILL => 132,
        Errno::EHWPOISON => 133,
    }
}

/// The error that a native number stands for.
pub open spec fn errno_of(code: i32) -> Errno {
    match code {
        1 => Errno::EPERM,
        2 => Errno::ENOENT,
        3 => Errno::ESRCH,
        4 => Errno::EINTR,
        5 => Errno::EIO,
        6 => Errno::ENXIO,
        7 => Errno::E2BIG,
        8 => Errno::ENOEXEC,
        9 => Errno::EBADF,
        10 => Errno::ECHILD,
        11 => Errno::EAGAIN,
        12 => Errno::ENOMEM,
        13 => Errno::EACCES,
        14 => Errno::EFAULT,
        15 => Errno::ENOTBLK,
        16 => Errno::EBUSY,
        17 => Errno::EEXIST,
        18 => Errno::EXDEV,
        19 => Errno::ENODEV,
        20 => Errno::ENOTDIR,
        21 => Errno::EISDIR,
        22 => Errno::EINVAL,
        23 => Errno::ENFILE,
        24 => Errno::EMFILE,
        25 => Errno::ENOTTY,
        26 => Errno::ETXTBSY,
        27 => Errno::EFBIG,
        28 => Errno::ENOSPC,
        29 => Errno::ESPIPE,
        30 => Errno::EROFS,
        31 => Errno::EMLINK,
        32 => Errno::EPIPE,
        33 => Errno::EDOM,
        34 => Errno::ERANGE,
        35 => Errno::EDEADLK,
        36 => Errno::ENAMETOOLONG,
        37 => Errno::ENOLCK,
        38 => Errno::ENOSYS,
        39 => Errno::ENOTEMPTY,
        40 => Errno::ELOOP,
        42 => Errno::ENOMSG,
        43 => Errno::EIDRM,
        44 => Errno::ECHRNG,
        45 => Errno::EL2NSYNC,
        46 => Errno::EL3HLT,
        47 => Errno::EL3RST,
        48 => Errno::ELNRNG,
        49 => Errno::EUNATCH,
        50 => Errno::ENOCSI,
        51 => Errno::EL2HLT,
        52 => Errno::EBADE,
        53 => Errno::EBADR,
        54 => Errno::EXFULL,
        55 => Errno::ENOANO,
        56 => Errno::EBADRQC,
        57 => Errno::EBADSLT,
        59 => Errno::EBFONT,
        60 => Errno::ENOSTR,
        61 => Errno::ENODATA,
        62 => Errno::ETIME,
        63 => Errno::ENOSR,
        64 => Errno::ENONET,
        65 => Errno::ENOPKG,
        66 => Errno::EREMOTE,
        67 => Errno::ENOLINK,
        68 => Errno::EADV,
        69 => Errno::ESRMNT,
        70 => Errno::ECOMM,
        71 => Errno::EPROTO,
        72 => Errno::EMULTIHOP,
        73 => Errno::EDOTDOT,
        74 => Errno::EBADMSG,
        75 => Errno::EOVERFLOW,
        76 => Errno::ENOTUNIQ,
        77 => Errno::EBADFD,
        78 => Errno::EREMCHG,
        79 => Errno::ELIBACC,
        80 => Errno::ELIBBAD,
        81 => Errno::ELIBSCN,
        82 => Errno::ELIBMAX,
        83 => Errno::ELIBEXEC,
        84 => Errno::EILSEQ,
        85 => Errno::ERESTART,
        86 => Errno::ESTRPIPE,
        87 => Errno::EUSERS,
        88 => Errno::ENOTSOCK,
        89 => Errno::EDESTADDRREQ,
        90 => Errno::EMSGSIZE,
        91 => Errno::EPROTOTYPE,
        92 => Errno::ENOPROTOOPT,
        93 => Errno::EPROTONOSUPPORT,
        94 => Errno::ESOCKTNOSUPPORT,
        95 => Errno::EOPNOTSUPP,
        96 => Errno::EPFNOSUPPORT,
        97 => Errno::EAFNOSUPPORT,
        98 => Errno::EADDRINUSE,
        99 => Errno::EADDRNOTAVAIL,
        100 => Errno::ENETDOWN,
        101 => Errno::ENETUNREACH,
        102 => Errno::ENETRESET,
        103 => Errno::ECONNABORTED,
        104 => Errno::ECONNRESET,
        105 => Errno::ENOBUFS,
        106 => Errno::EISCONN,
        107 => Errno::ENOTCONN,
        108 => Errno::ESHUTDOWN,
        109 => Errno::ETOOMANYREFS,
        110 => Errno::ETIMEDOUT,
        111 => Errno::ECONNREFUSED,
        112 => Errno::EHOSTDOWN,
        113 => Errno::EHOSTUNREACH,
        114 => Errno::EALREADY,
        115 => Errno::EINPROGRESS,
        116 => Errno::ESTALE,
        117 => Errno::EUCLEAN,
        118 => Errno::ENOTNAM,
        119 => Errno::ENAVAIL,
        120 => Errno::EISNAM,
        121 => Errno::EREMOTEIO,
        122 => Errno::EDQUOT,
        123 => Errno::ENOMEDIUM,
        124 => Errno::EMEDIUMTYPE,
        125 => Errno::ECANCELED,
        126 => Errno::ENOKEY,
        127 => Errno::EKEYEXPIRED,
        128 => Errno::EKEYREVOKED,
        129 => Errno::EKEYREJECTED,
        130 => Errno::EOWNERDEAD,
        131 => Errno::ENOTRECOVERABLE,
        132 => Errno::ERFKILL,
        133 => Errno::EHWPOISON,
        _ => Errno::UnknownErrno,
    }
}

impl Errno {
    /// The native number of this error.
    pub fn as_i32(self) -> (r: i32)
        ensures
            r == errno_code(self),
    {
        match self {
            Errno::UnknownErrno => 0,
            Errno::EPERM => 1,
            Errno::ENOENT => 2,
            Errno::ESRCH => 3,
            Errno::EINTR => 4,
            Errno::EIO => 5,
            Errno::ENXIO => 6,
            Errno::E2BIG => 7,
            Errno::ENOEXEC => 8,
            Errno::EBADF => 9,
            Errno::ECHILD => 10,
            Errno::EAGAIN => 11,
            Errno::ENOMEM => 12,
            Errno::EACCES => 13,
            Errno::EFAULT => 14,
            Errno::ENOTBLK => 15,
            Errno::EBUSY => 16,
            Errno::EEXIST => 17,
            Errno::EXDEV => 18,
            Errno::ENODEV => 19,
            Errno::ENOTDIR => 20,
            Errno::EISDIR => 21,
            Errno::EINVAL => 22,
            Errno::ENFILE => 23,
            Errno::EMFILE => 24,
            Errno::ENOTTY => 25,
            Errno::ETXTBSY => 26,
            Errno::EFBIG => 27,
            Errno::ENOSPC => 28,
            Errno::ESPIPE => 29,
            Errno::EROFS => 30,
            Errno::EMLINK => 31,
            Errno::EPIPE => 32,
            Errno::EDOM => 33,
            Errno::ERANGE => 34,
            Errno::EDEADLK => 35,
            Errno::ENAMETOOLONG => 36,
            Errno::ENOLCK => 37,
            Errno::ENOSYS => 38,
            Errno::ENOTEMPTY => 39,
            Errno::ELOOP => 40,
            Errno::ENOMSG => 42,
            Errno::EIDRM => 43,
            Errno::ECHRNG => 44,
            Errno::EL2NSYNC => 45,
            Errno::EL3HLT => 46,
            Errno::EL3RST => 47,
            Errno::ELNRNG => 48,
            Errno::EUNATCH => 49,
            Errno::ENOCSI => 50,
            Errno::EL2HLT => 51,
            Errno::EBADE => 52,
            Errno::EBADR => 53,
            Errno::EXFULL => 54,
            Errno::ENOANO => 55,
            Errno::EBADRQC => 56,
            Errno::EBADSLT => 57,
            Errno::EBFONT => 59,
            Errno::ENOSTR => 60,
            Errno::ENODATA => 61,
            Errno::ETIME => 62,
            Errno::ENOSR => 63,
            Errno::ENONET => 64,
            Errno::ENOPKG => 65,
            Errno::EREMOTE => 66,
            Errno::ENOLINK => 67,
            Errno::EADV => 68,
            Errno::ESRMNT => 69,
            Errno::ECOMM => 70,
            Errno::EPROTO => 71,
            Errno::EMULTIHOP => 72,
            Errno::EDOTDOT => 73,
            Errno::EBADMSG => 74,
            Errno::EOVERFLOW => 75,
            Errno::ENOTUNIQ => 76,
            Errno::EBADFD => 77,
            Errno::EREMCHG => 78,
            Errno::ELIBACC => 79,
            Errno::ELIBBAD => 80,
            Errno::ELIBSCN => 81,
            Errno::ELIBMAX => 82,
            Errno::ELIBEXEC => 83,
            Errno::EILSEQ => 84,
            Errno::ERESTART => 85,
            Errno::ESTRPIPE => 86,
            Errno::EUSERS => 87,
            Errno::ENOTSOCK => 88,
            Errno::EDESTADDRREQ => 89,
            Errno::EMSGSIZE => 90,
            Errno::EPROTOTYPE => 91,
            Errno::ENOPROTOOPT => 92,
            Errno::EPROTONOSUPPORT => 93,
            Errno::ESOCKTNOSUPPORT => 94,
            Errno::EOPNOTSUPP => 95,
            Errno::EPFNOSUPPORT => 96,
            Errno::EAFNOSUPPORT => 97,
            Errno::EADDRINUSE => 98,
            Errno::EADDRNOTAVAIL => 99,
            Errno::ENETDOWN => 100,
            Errno::ENETUNREACH => 101,
            Errno::ENETRESET => 102,
            Errno::ECONNABORTED => 103,
            Errno::ECONNRESET => 104,
            Errno::ENOBUFS => 105,
            Errno::EISCONN => 106,
            Errno::ENOTCONN => 107,
            Errno::ESHUTDOWN => 108,
            Errno::ETOOMANYREFS => 109,
            Errno::ETIMEDOUT => 110,
            Errno::ECONNREFUSED => 111,
            Errno::EHOSTDOWN => 112,
            Errno::EHOSTUNREACH => 113,
            Errno::EALREADY => 114,
            Errno::EINPROGRESS => 115,
            Errno::ESTALE => 116,
            Errno::EUCLEAN => 117,
            Errno::ENOTNAM => 118,
            Errno::ENAVAIL => 119,
            Errno::EISNAM => 120,
            Errno::EREMOTEIO => 121,
            Errno::EDQUOT => 122,
            Errno::ENOMEDIUM => 123,
            Errno::EMEDIUMTYPE => 124,
            Errno::ECANCELED => 125,
            Errno::ENOKEY => 126,
            Errno::EKEYEXPIRED => 127,
            Errno::EKEYREVOKED => 128,
            Errno::EKEYREJECTED => 129,
            Errno::EOWNERDEAD => 130,
            Errno::ENOTRECOVERABLE => 131,
            Errno::ERFKILL => 132,
            Errno::EHWPOISON => 133,
        }
    }

    /// The error for a native number; a number that Linux does not define
    /// gives `UnknownErrno`.
    pub fn from_i32(code: i32) -> (r: Errno)
        ensures
            r == errno_of(code),
            is_known_errno(code) ==> errno_code(r) == code,
            !is_known_errno(code) ==> r == Errno::UnknownErrno,
    {
        match code {
            1 => Errno::EPERM,
            2 => Errno::ENOENT,
            3 => Errno::ESRCH,
            4 => Errno::EINTR,
            5 => Errno::EIO,
            6 => Errno::ENXIO,
            7 => Errno::E2BIG,
            8 => Errno::ENOEXEC,
            9 => Errno::EBADF,
            10 => Errno::ECHILD,
            11 => Errno::EAGAIN,
            12 => Errno::ENOMEM,
            13 => Errno::EACCES,
            14 => Errno::EFAULT,
            15 => Errno::ENOTBLK,
            16 => Errno::EBUSY,
            17 => Errno::EEXIST,
            18 => Errno::EXDEV,
            19 => Errno::ENODEV,
            20 => Errno::ENOTDIR,
            21 => Errno::EISDIR,
            22 => Errno::EINVAL,
            23 => Errno::ENFILE,
            24 => Errno::EMFILE,
            25 => Errno::ENOTTY,
            26 => Errno::ETXTBSY,
            27 => Errno::EFBIG,
            28 => Errno::ENOSPC,
            29 => Errno::ESPIPE,
            30 => Errno::EROFS,
            31 => Errno::EMLINK,
            32 => Errno::EPIPE,
            33 => Errno::EDOM,
            34 => Errno::ERANGE,
            35 => Errno::EDEADLK,
            36 => Errno::ENAMETOOLONG,
            37 => Errno::ENOLCK,
            38 => Errno::ENOSYS,
            39 => Errno::ENOTEMPTY,
            40 => Errno::ELOOP,
            42 => Errno::ENOMSG,
            43 => Errno::EIDRM,
            44 => Errno::ECHRNG,
            45 => Errno::EL2NSYNC,
            46 => Errno::EL3HLT,
            47 => Errno::EL3RST,
            48 => Errno::ELNRNG,
            49 => Errno::EUNATCH,
            50 => Errno::ENOCSI,
            51 => Errno::EL2HLT,
            52 => Errno::EBADE,
            53 => Errno::EBADR,
            54 => Errno::EXFULL,
            55 => Errno::ENOANO,
            56 => Errno::EBADRQC,
            57 => Errno::EBADSLT,
            59 => Errno::EBFONT,
            60 => Errno::ENOSTR,
            61 => Errno::ENODATA,
            62 => Errno::ETIME,
            63 => Errno::ENOSR,
            64 => Errno::ENONET,
            65 => Errno::ENOPKG,
            66 => Errno::EREMOTE,
            67 => Errno::ENOLINK,
            68 => Errno::EADV,
            69 => Errno::ESRMNT,
            70 => Errno::ECOMM,
            71 => Errno::EPROTO,
            72 => Errno::EMULTIHOP,
            73 => Errno::EDOTDOT,
            74 => Errno::EBADMSG,
            75 => Errno::EOVERFLOW,
            76 => Errno::ENOTUNIQ,
            77 => Errno::EBADFD,
            78 => Errno::EREMCHG,
            79 => Errno::ELIBACC,
            80 => Errno::ELIBBAD,
            81 => Errno::ELIBSCN,
            82 => Errno::ELIBMAX,
            83 => Errno::ELIBEXEC,
            84 => Errno::EILSEQ,
            85 => Errno::ERESTART,
            86 => Errno::ESTRPIPE,
            87 => Errno::EUSERS,
            88 => Errno::ENOTSOCK,
            89 => Errno::EDESTADDRREQ,
            90 => Errno::EMSGSIZE,
            91 => Errno::EPROTOTYPE,
            92 => Errno::ENOPROTOOPT,
            93 => Errno::EPROTONOSUPPORT,
            94 => Errno::ESOCKTNOSUPPORT,
            95 => Errno::EOPNOTSUPP,
            96 => Errno::EPFNOSUPPORT,
            97 => Errno::EAFNOSUPPORT,
            98 => Errno::EADDRINUSE,
            99 => Errno::EADDRNOTAVAIL,
            100 => Errno::ENETDOWN,
            101 => Errno::ENETUNREACH,
            102 => Errno::ENETRESET,
            103 => Errno::ECONNABORTED,
            104 => Errno::ECONNRESET,
            105 => Errno::ENOBUFS,
            106 => Errno::EISCONN,
            107 => Errno::ENOTCONN,
            108 => Errno::ESHUTDOWN,
            109 => Errno::ETOOMANYREFS,
            110 => Errno::ETIMEDOUT,
            111 => Errno::ECONNREFUSED,
            112 => Errno::EHOSTDOWN,
            113 => Errno::EHOSTUNREACH,
            114 => Errno::EALREADY,
            115 => Errno::EINPROGRESS,
            116 => Errno::ESTALE,
            117 => Errno::EUCLEAN,
            118 => Errno::ENOTNAM,
            119 => Errno::ENAVAIL,
            120 => Errno::EISNAM,
            121 => Errno::EREMOTEIO,
            122 => Errno::EDQUOT,
            123 => Errno::ENOMEDIUM,
            124 => Errno::EMEDIUMTYPE,
            125 => Errno::ECANCELED,
            126 => Errno::ENOKEY,
            127 => Errno::EKEYEXPIRED,
            128 => Errno::EKEYREVOKED,
            129 => Errno::EKEYREJECTED,
            130 => Errno::EOWNERDEAD,
            131 => Errno::ENOTRECOVERABLE,
            132 => Errno::ERFKILL,
            133 => Errno::EHWPOISON,
            _ => Errno::UnknownErrno,
        }
    }
}

/// Every known error survives the trip through its native number.
pub proof fn errno_round_trip(e: Errno)
    requires
        e != Errno::UnknownErrno,
    ensures
        errno_of(errno_code(e)) == e,
        is_known_errno(errno_code(e)),
{
}

/// A failure of this library: either reported by the operating system, or a
/// request rejected before any call was made.
#[derive(Clone, Copy, Debug, PartialEq, Eq, Structural)]
pub enum Error {
    /// The operating system reported this error number.
    Sys(Errno),
    /// A path could not be handed to the operating system (interior NUL, too long).
    InvalidPath,
    /// A string was not valid UTF-8.
    InvalidUtf8,
    /// The operation is not supported with these arguments.
    UnsupportedOperation,
}

impl Error {
    /// The error for an operating-system error number.
    pub fn from_errno(errno: Errno) -> (r: Error)
        ensures
            r == Error::Sys(errno),
    {
        Error::Sys(errno)
    }

    /// The error number, where the operating system reported one.
    pub fn as_errno(self) -> (r: Option<Errno>)
        ensures
            r == (match self {
                Error::Sys(e) => Some(e),
                _ => None::<Errno>,
            }),
    {
        match self {
            Error::Sys(e) => Some(e),
            _ => None,
        }
    }
}

/// What a raw system-call return value means: `-1` reports the error held in
/// `errno`, any other value is the call's result.
pub open spec fn classify(ret: i64, errno: i32) -> Result<i64, Errno> {
    if ret == -1 {
        Err(errno_of(errno))
    } else {
        Ok(ret)
    }
}

/// Classifies a raw system-call return value, reading `errno` only on failure.
pub fn result(ret: i64, errno: i32) -> (r: Result<i64, Errno>)
    ensures
        r == classify(ret, errno),
        r is Ok <==> ret != -1,
{
    if ret == -1 {
        Err(Errno::from_i32(errno))
    } else {
        Ok(ret)
    }
}

} // verus!
