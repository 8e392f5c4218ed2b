//! The error that verifiers, engines and machines report.
use vstd::prelude::*;

verus! {

/// What kind of failure an [`Error`] stands for: the kinds of `std::io::ErrorKind` that a
/// verifier or an engine may report. The machines hand a kind on as they got it, and report
/// only `Other` themselves.
#[derive(Clone, Copy, Debug, PartialEq, Eq, Structural)]
#[non_exhaustive]
pub enum ErrorKind {
    /// Something was not found.
    NotFound,
    /// The operation lacked the necessary privileges.
    PermissionDenied,
    /// A connection was refused.
    ConnectionRefused,
    /// A connection was reset.
    ConnectionReset,
    /// A host cannot be reached.
    HostUnreachable,
    /// A network cannot be reached.
    NetworkUnreachable,
    /// A connection was aborted.
    ConnectionAborted,
    /// There is no connection yet.
    NotConnected,
    /// An address is already in use.
    AddrInUse,
    /// An address is not available.
    AddrNotAvailable,
    /// The network is down.
    NetworkDown,
    /// A pipe was closed.
    BrokenPipe,
    /// Something exists already.
    AlreadyExists,
    /// The operation would have to block.
    WouldBlock,
    /// Something is not a directory.
    NotADirectory,
    /// Something is a directory.
    IsADirectory,
    /// A directory is not empty.
    DirectoryNotEmpty,
    /// A file system is read-only.
    ReadOnlyFilesystem,
    /// A network file handle is stale.
    StaleNetworkFileHandle,
    /// A parameter was not valid.
    InvalidInput,
    /// Data was not valid for the operation.
    InvalidData,
    /// The operation timed out.
    TimedOut,
    /// Nothing more could be written.
    WriteZero,
    /// There is no storage left.
    StorageFull,
    /// Something cannot be sought in.
    NotSeekable,
    /// A quota was exceeded.
    QuotaExceeded,
    /// A file would be too large.
    FileTooLarge,
    /// A resource is busy.
    ResourceBusy,
    /// An executable file is in use.
    ExecutableFileBusy,
    /// The operation would not come to an end.
    Deadlock,
    /// The operation would cross devices.
    CrossesDevices,
    /// There would be too many links.
    TooManyLinks,
    /// A file name was not valid.
    InvalidFilename,
    /// An argument list was too long.
    ArgumentListTooLong,
    /// The operation was interrupted.
    Interrupted,
    /// The operation is not supported.
    Unsupported,
    /// Data ended too early.
    UnexpectedEof,
    /// There was not enough memory.
    OutOfMemory,
    /// A failure that no other kind describes.
    Other,
}

/// A failure, with a message for the user.
#[derive(Debug)]
pub struct Error {
    kind: ErrorKind,
    message: String,
}

/// The character for a decimal digit.
pub open spec fn digit(d: nat) -> char
    recommends
        d < 10,
{
    (48 + d) as char
}

/// A number in decimal notation, without leading zeros.
pub open spec fn decimal(n: nat) -> Seq<char>
    decreases n,
{
    if n < 10 {
        seq![digit(n)]
    } else {
        decimal(n / 10).push(digit(n % 10))
    }
}

/// The number that a sequence of decimal digits stands for.
pub open spec fn decimal_value(digits: Seq<char>) -> int
    decreases digits.len(),
{
    if digits.len() == 0 {
        0
    } else {
        10 * decimal_value(digits.drop_last()) + (digits.last() as int - '0' as int)
    }
}

/// Decimal notation is made of digits, has no leading zero but for zero itself, and reads back
/// as the number.
pub proof fn law_decimal_reads_back(n: nat)
    ensures
        decimal_value(decimal(n)) == n,
        decimal(n).len() >= 1,
        n > 0 ==> decimal(n)[0] != '0',
        n == 0 ==> decimal(n) == seq!['0'],
        forall|i: int|
            0 <= i < decimal(n).len() ==> '0' as int <= #[trigger] decimal(n)[i] as int
                <= '9' as int,
    decreases n,
{
    if n < 10 {
        assert(decimal(n).drop_last() =~= Seq::empty());
        reveal_with_fuel(decimal_value, 2);
    } else {
        law_decimal_reads_back(n / 10);
        assert(decimal(n).drop_last() =~= decimal(n / 10));
    }
}

/// What is said when a metadata buffer of `len` bytes has no room for the addresses at
/// the two offsets.
pub open spec fn buffer_too_small_text(len: nat, data_offset: nat, data_end_offset: nat) -> Seq<
    char,
> {
    "Error: buffer too small ("@ + decimal(len) + "), cannot use data_offset "@ + decimal(
        data_offset,
    ) + " and data_end_offset "@ + decimal(data_end_offset)
}

/// What is said when a program is needed and none is loaded.
pub open spec fn no_program_text() -> Seq<char> {
    "Error: No program set, call prog_set() to load one"@
}

fn digit_str(d: usize) -> (s: &'static str)
    requires
        d < 10,
    ensures
        s@ == seq![digit(d as nat)],
{
    proof {
        reveal_strlit("0");
        reveal_strlit("1");
        reveal_strlit("2");
        reveal_strlit("3");
        reveal_strlit("4");
        reveal_strlit("5");
        reveal_strlit("6");
        reveal_strlit("7");
        reveal_strlit("8");
        reveal_strlit("9");
    }
    match d {
        0 => "0",
        1 => "1",
        2 => "2",
        3 => "3",
        4 => "4",
        5 => "5",
        6 => "6",
        7 => "7",
        8 => "8",
        _ => "9",
    }
}

fn append_decimal(text: &mut String, n: usize)
    ensures
        final(text)@ == old(text)@ + decimal(n as nat),
    decreases n,
{
    if n >= 10 {
        append_decimal(text, n / 10);
    }
    text.append(digit_str(n % 10));
}

impl Error {
    /// The kind that the error was made with.
    pub closed spec fn spec_kind(&self) -> ErrorKind {
        self.kind
    }

    /// The message that the error was made with.
    pub closed spec fn spec_message(&self) -> Seq<char> {
        self.message@
    }

    /// An error of the given kind that says `message`.
    pub fn new(kind: ErrorKind, message: &str) -> (e: Error)
        ensures
            e.spec_kind() == kind,
            e.spec_message() == message@,
    {
        Error { kind, message: message.to_owned() }
    }

    /// The kind of the error.
    pub fn kind(&self) -> (kind: ErrorKind)
        ensures
            kind == self.spec_kind(),
    {
        self.kind
    }

    /// What the error says.
    pub fn message(&self) -> (message: &str)
        ensures
            message@ == self.spec_message(),
    {
        self.message.as_str()
    }

    /// The error for a metadata buffer that has no room for the addresses.
    pub(crate) fn buffer_too_small(len: usize, data_offset: usize, data_end_offset: usize) -> (e:
        Error)
        ensures
            e.spec_kind() == ErrorKind::Other,
            e.spec_message() == buffer_too_small_text(
                len as nat,
                data_offset as nat,
                data_end_offset as nat,
            ),
    {
        let mut message = "Error: buffer too small (".to_owned();
        append_decimal(&mut message, len);
        message.append("), cannot use data_offset ");
        append_decimal(&mut message, data_offset);
        message.append(" and data_end_offset ");
        append_decimal(&mut message, data_end_offset);
        Error { kind: ErrorKind::Other, message }
    }
}

} // verus!
