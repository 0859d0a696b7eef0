//! What can go wrong, and the guard that stands behind every driver call.

use vstd::prelude::*;
use crate::call::{
    created, expects_handle, Reply, ReplyView, Request, RequestView, ShaderStage,
    FRAMEBUFFER_COMPLETE, NO_ERROR,
};
use vstd::string::StringExecFns;

verus! {

/// A failure of the pipeline. None of them is recoverable: the session that
/// reports one has ended.
#[derive(Debug, PartialEq, Eq)]
pub enum Error {
    /// A shader stage did not compile. `log` is the compiler's text, whole.
    Compile { stage: ShaderStage, log: String },
    /// The program did not link. `log` is the linker's text, whole.
    Link { log: String },
    /// A linked program has no variable of this name.
    Resolution { name: String },
    /// A framebuffer is not complete. `status` is what the driver reported.
    Framebuffer { status: u32 },
    /// The driver raised `code` on `call`, or answered it without the handle
    /// that the call is made for (then `code` is [`NO_ERROR`]).
    Driver { call: Request, code: u32 },
}

/// An [`Error`] as a mathematical value.
pub enum ErrorView {
    Compile { stage: ShaderStage, log: Seq<char> },
    Link { log: Seq<char> },
    Resolution { name: Seq<char> },
    Framebuffer { status: u32 },
    Driver { call: RequestView, code: u32 },
}

impl View for Error {
    type V = ErrorView;

    open spec fn view(&self) -> ErrorView {
        match *self {
            Error::Compile { stage, log } => ErrorView::Compile { stage, log: log@ },
            Error::Link { log } => ErrorView::Link { log: log@ },
            Error::Resolution { name } => ErrorView::Resolution { name: name@ },
            Error::Framebuffer { status } => ErrorView::Framebuffer { status },
            Error::Driver { call, code } => ErrorView::Driver { call: call@, code },
        }
    }
}

/// The driver's error states, by name.
#[derive(Clone, Copy, Debug, PartialEq, Eq, Structural)]
pub enum DriverFault {
    InvalidEnum,
    InvalidValue,
    InvalidOperation,
    StackOverflow,
    StackUnderflow,
    OutOfMemory,
    InvalidFramebufferOperation,
    ContextLost,
    /// A state that this library has no name for.
    Unknown,
}

/// The name of each error state.
pub open spec fn fault_of(code: u32) -> Option<DriverFault> {
    if code == NO_ERROR {
        None
    } else if code == 0x0500 {
        Some(DriverFault::InvalidEnum)
    } else if code == 0x0501 {
        Some(DriverFault::InvalidValue)
    } else if code == 0x0502 {
        Some(DriverFault::InvalidOperation)
    } else if code == 0x0503 {
        Some(DriverFault::StackOverflow)
    } else if code == 0x0504 {
        Some(DriverFault::StackUnderflow)
    } else if code == 0x0505 {
        Some(DriverFault::OutOfMemory)
    } else if code == 0x0506 {
        Some(DriverFault::InvalidFramebufferOperation)
    } else if code == 0x0507 {
        Some(DriverFault::ContextLost)
    } else {
        Some(DriverFault::Unknown)
    }
}

/// Names the driver's error state `code`; `None` when it reports no error.
pub fn driver_fault(code: u32) -> (fault: Option<DriverFault>)
    ensures
        fault == fault_of(code),
{
    match code {
        0 => None,
        0x0500 => Some(DriverFault::InvalidEnum),
        0x0501 => Some(DriverFault::InvalidValue),
        0x0502 => Some(DriverFault::InvalidOperation),
        0x0503 => Some(DriverFault::StackOverflow),
        0x0504 => Some(DriverFault::StackUnderflow),
        0x0505 => Some(DriverFault::OutOfMemory),
        0x0506 => Some(DriverFault::InvalidFramebufferOperation),
        0x0507 => Some(DriverFault::ContextLost),
        _ => Some(DriverFault::Unknown),
    }
}

/// Why a framebuffer is not complete, by name.
#[derive(Clone, Copy, Debug, PartialEq, Eq, Structural)]
pub enum Incompleteness {
    Undefined,
    Attachment,
    MissingAttachment,
    DrawBuffer,
    ReadBuffer,
    Unsupported,
    Multisample,
    LayerTargets,
    /// A status that this library has no name for.
    Unknown,
}

/// The name of each framebuffer status but "complete".
pub open spec fn incompleteness_of(status: u32) -> Option<Incompleteness> {
    if status == FRAMEBUFFER_COMPLETE {
        None
    } else if status == 0x8219 {
        Some(Incompleteness::Undefined)
    } else if status == 0x8CD6 {
        Some(Incompleteness::Attachment)
    } else if status == 0x8CD7 {
        Some(Incompleteness::MissingAttachment)
    } else if status == 0x8CDB {
        Some(Incompleteness::DrawBuffer)
    } else if status == 0x8CDC {
        Some(Incompleteness::ReadBuffer)
    } else if status == 0x8CDD {
        Some(Incompleteness::Unsupported)
    } else if status == 0x8D56 {
        Some(Incompleteness::Multisample)
    } else if status == 0x8DA8 {
        Some(Incompleteness::LayerTargets)
    } else {
        Some(Incompleteness::Unknown)
    }
}

/// Names the reason behind a framebuffer status; `None` when the framebuffer
/// is complete.
pub fn incompleteness(status: u32) -> (reason: Option<Incompleteness>)
    ensures
        reason == incompleteness_of(status),
{
    match status {
        0x8CD5 => None,
        0x8219 => Some(Incompleteness::Undefined),
        0x8CD6 => Some(Incompleteness::Attachment),
        0x8CD7 => Some(Incompleteness::MissingAttachment),
        0x8CDB => Some(Incompleteness::DrawBuffer),
        0x8CDC => Some(Incompleteness::ReadBuffer),
        0x8CDD => Some(Incompleteness::Unsupported),
        0x8D56 => Some(Incompleteness::Multisample),
        0x8DA8 => Some(Incompleteness::LayerTargets),
        _ => Some(Incompleteness::Unknown),
    }
}


/// One decimal digit.
pub open spec fn digit_of(value: nat) -> Seq<char> {
    if value == 0 {
        "0"@
    } else if value == 1 {
        "1"@
    } else if value == 2 {
        "2"@
    } else if value == 3 {
        "3"@
    } else if value == 4 {
        "4"@
    } else if value == 5 {
        "5"@
    } else if value == 6 {
        "6"@
    } else if value == 7 {
        "7"@
    } else if value == 8 {
        "8"@
    } else {
        "9"@
    }
}

/// A number in decimal, without leading zeros.
pub open spec fn decimal_of(number: nat) -> Seq<char>
    decreases number,
{
    if number < 10 {
        digit_of(number)
    } else {
        decimal_of(number / 10) + digit_of(number % 10)
    }
}

fn digit(value: u32) -> (text: &'static str)
    requires
        value < 10,
    ensures
        text@ == digit_of(value as nat),
{
    match value {
        0 => "0",
        1 => "1",
        2 => "2",
        3 => "3",
        4 => "4",
        5 => "5",
        6 => "6",
        7 => "7",
        8 => "8",
        _ => "9",
    }
}

fn decimal(number: u32) -> (text: String)
    ensures
        text@ == decimal_of(number as nat),
    decreases number,
{
    if number < 10 {
        String::from_str(digit(number))
    } else {
        let mut text = decimal(number / 10);
        text.append(digit(number % 10));
        text
    }
}

impl DriverFault {
    /// The error state in words.
    pub open spec fn words(self) -> Seq<char> {
        match self {
            DriverFault::InvalidEnum => "invalid enum"@,
            DriverFault::InvalidValue => "invalid value"@,
            DriverFault::InvalidOperation => "invalid operation"@,
            DriverFault::StackOverflow => "stack overflow"@,
            DriverFault::StackUnderflow => "stack underflow"@,
            DriverFault::OutOfMemory => "out of memory"@,
            DriverFault::InvalidFramebufferOperation => "invalid framebuffer operation"@,
            DriverFault::ContextLost => "context lost"@,
            DriverFault::Unknown => "unknown error"@,
        }
    }

    /// The error state in words, for diagnostics.
    pub fn describe(self) -> (words: &'static str)
        ensures
            words@ == self.words(),
    {
        match self {
            DriverFault::InvalidEnum => "invalid enum",
            DriverFault::InvalidValue => "invalid value",
            DriverFault::InvalidOperation => "invalid operation",
            DriverFault::StackOverflow => "stack overflow",
            DriverFault::StackUnderflow => "stack underflow",
            DriverFault::OutOfMemory => "out of memory",
            DriverFault::InvalidFramebufferOperation => "invalid framebuffer operation",
            DriverFault::ContextLost => "context lost",
            DriverFault::Unknown => "unknown error",
        }
    }
}

impl Incompleteness {
    /// The reason in words.
    pub open spec fn words(self) -> Seq<char> {
        match self {
            Incompleteness::Undefined => "undefined"@,
            Incompleteness::Attachment => "incomplete attachment"@,
            Incompleteness::MissingAttachment => "missing attachment"@,
            Incompleteness::DrawBuffer => "incomplete draw buffer"@,
            Incompleteness::ReadBuffer => "incomplete read buffer"@,
            Incompleteness::Unsupported => "unsupported"@,
            Incompleteness::Multisample => "incomplete multisample"@,
            Incompleteness::LayerTargets => "incomplete layer targets"@,
            Incompleteness::Unknown => "unknown status"@,
        }
    }

    /// The reason in words, for diagnostics.
    pub fn describe(self) -> (words: &'static str)
        ensures
            words@ == self.words(),
    {
        match self {
            Incompleteness::Undefined => "undefined",
            Incompleteness::Attachment => "incomplete attachment",
            Incompleteness::MissingAttachment => "missing attachment",
            Incompleteness::DrawBuffer => "incomplete draw buffer",
            Incompleteness::ReadBuffer => "incomplete read buffer",
            Incompleteness::Unsupported => "unsupported",
            Incompleteness::Multisample => "incomplete multisample",
            Incompleteness::LayerTargets => "incomplete layer targets",
            Incompleteness::Unknown => "unknown status",
        }
    }
}

impl ErrorView {
    /// The diagnostic for the failure: the part of the pipeline that failed,
    /// and the driver's own words where it has any. A log is carried whole,
    /// at the end.
    pub open spec fn diagnostic(self) -> Seq<char> {
        match self {
            ErrorView::Compile { stage: ShaderStage::Vertex, log } => "vertex shader does not compile:\n"@
                + log,
            ErrorView::Compile { stage: ShaderStage::Fragment, log } => "fragment shader does not compile:\n"@
                + log,
            ErrorView::Link { log } => "shader program does not link:\n"@ + log,
            ErrorView::Resolution { name } => "shader program has no variable "@ + name,
            ErrorView::Framebuffer { status } => "framebuffer is not complete: "@ + (
            match incompleteness_of(status) {
                Some(reason) => reason.words(),
                None => "complete"@,
            }) + ", status "@ + decimal_of(status as nat),
            ErrorView::Driver { call, code } => call.operation() + ": "@ + (match fault_of(code) {
                Some(fault) => fault.words(),
                None => "no object"@,
            }) + ", error "@ + decimal_of(code as nat),
        }
    }
}

impl Error {
    /// The diagnostic to end with: which part of the pipeline failed, the
    /// call and the driver's error state where the driver refused, and the
    /// compiler's or linker's log, whole, where there is one.
    pub fn diagnostic(&self) -> (text: String)
        ensures
            text@ == self@.diagnostic(),
    {
        match self {
            Error::Compile { stage, log } => {
                let mut text = match stage {
                    ShaderStage::Vertex => String::from_str("vertex shader does not compile:\n"),
                    ShaderStage::Fragment => String::from_str(
                        "fragment shader does not compile:\n",
                    ),
                };
                text.append(log.as_str());
                text
            },
            Error::Link { log } => {
                let mut text = String::from_str("shader program does not link:\n");
                text.append(log.as_str());
                text
            },
            Error::Resolution { name } => {
                let mut text = String::from_str("shader program has no variable ");
                text.append(name.as_str());
                text
            },
            Error::Framebuffer { status } => {
                let mut text = String::from_str("framebuffer is not complete: ");
                match incompleteness(*status) {
                    Some(reason) => text.append(reason.describe()),
                    None => text.append("complete"),
                }
                text.append(", status ");
                let number = decimal(*status);
                text.append(number.as_str());
                text
            },
            Error::Driver { call, code } => {
                let mut text = String::from_str(call.operation());
                text.append(": ");
                match driver_fault(*code) {
                    Some(fault) => text.append(fault.describe()),
                    None => text.append("no object"),
                }
                text.append(", error ");
                let number = decimal(*code);
                text.append(number.as_str());
                text
            },
        }
    }
}

/// The diagnostic of a compile or link failure ends with the log, whole.
pub proof fn lemma_diagnostic_ends_with_log(error: ErrorView)
    requires
        error is Compile || error is Link,
    ensures
        ({
            let log = match error {
                ErrorView::Compile { log, .. } => log,
                ErrorView::Link { log } => log,
                _ => Seq::empty(),
            };
            let text = error.diagnostic();
            log.len() <= text.len() && text.skip(text.len() - log.len()) == log
        }),
{
    let log = match error {
        ErrorView::Compile { log, .. } => log,
        ErrorView::Link { log } => log,
        _ => Seq::empty(),
    };
    let text = error.diagnostic();
    assert(text.skip(text.len() - log.len()) =~= log);
}

/// The failure that the driver's answer to `call` amounts to, if any: an error
/// state that is raised, or no handle where the call asks for one.
pub open spec fn refusal(call: RequestView, reply: ReplyView) -> Option<ErrorView> {
    if reply.error != NO_ERROR {
        Some(ErrorView::Driver { call, code: reply.error })
    } else if expects_handle(call) && reply.handle() is None {
        Some(ErrorView::Driver { call, code: NO_ERROR })
    } else {
        None
    }
}

/// The guard behind every driver call: looks at the driver's error state
/// after `call` and refuses to go on if anything is amiss.
pub fn guard(call: &Request, reply: &Reply) -> (outcome: Result<(), Error>)
    ensures
        match outcome {
            Ok(_) => refusal(call@, reply@) is None,
            Err(error) => refusal(call@, reply@) == Some(error@),
        },
{
    if reply.error != NO_ERROR {
        return Err(Error::Driver { call: call.clone(), code: reply.error });
    }
    let wants_name = match call {
        Request::GenBuffer => true,
        Request::CreateShader { .. } => true,
        Request::CreateProgram => true,
        Request::GenTexture => true,
        Request::GenFramebuffer => true,
        _ => false,
    };
    if wants_name && reply.value == 0 {
        Err(Error::Driver { call: call.clone(), code: NO_ERROR })
    } else {
        Ok(())
    }
}

/// A call that the guard lets pass has raised no error, and has created an
/// object exactly if it was made to create one.
pub proof fn lemma_guard_passes(call: RequestView, reply: ReplyView)
    requires
        refusal(call, reply) is None,
    ensures
        reply.error == NO_ERROR,
        expects_handle(call) <==> created(call, reply) is Some,
        expects_handle(call) ==> reply.handle() is Some,
{
}

} // verus!
