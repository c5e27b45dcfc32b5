//! How a pnpm is found: the one of the system, one that was set up before, or
//! one that the corepack of the bundled Node sets up.

use vstd::prelude::*;
use vstd::string::*;

use crate::location::Location;
use crate::text;

verus! {

/// What pnpm is called.
pub fn pnpm_program(windows: bool) -> (r: &'static str)
    ensures
        r@ == (if windows {
            "pnpm.cmd"@
        } else {
            "pnpm"@
        }),
{
    if windows {
        "pnpm.cmd"
    } else {
        "pnpm"
    }
}

/// Where the corepack beside a Node is looked for, given the directory of the
/// Node.
pub fn corepack_executable(directory: &Location, windows: bool) -> (r: Location)
    ensures
        r@ == directory@.push(
            if windows {
                "corepack.cmd"@
            } else {
                "corepack"@
            },
        ),
{
    if windows {
        directory.join("corepack.cmd")
    } else {
        directory.join("corepack")
    }
}

/// What is asked on the way.
#[derive(Clone, Copy, Debug, PartialEq, Eq, Structural)]
pub enum PnpmQuestion {
    /// Does the system have a pnpm?
    SystemPnpm,
    /// Is there a bundled Node?
    BundledNode,
    /// Can the directory of our own be made?
    ShimDirectory,
    /// Does it have a pnpm?
    ShimPnpm,
    /// Does the bundled Node have a corepack?
    Corepack,
    /// Does corepack set a pnpm up?
    EnableCorepack,
    /// Does our directory have a pnpm now?
    EnabledPnpm,
}

/// What is answered.
#[derive(Debug)]
pub enum PnpmReply {
    Yes,
    No,
    /// It could not be found out or done, with the reason.
    Failed(String),
}

/// What follows from an answer.
#[derive(Debug, PartialEq, Eq)]
pub enum PnpmNext {
    /// This is asked.
    Ask(PnpmQuestion),
    /// There is a pnpm: in our own directory, or anywhere on the search path.
    Ready { in_shim: bool },
    /// There is none, with the reason.
    Failed(String),
}

/// What a `PnpmNext` says.
#[verifier::ext_equal]
pub enum PnpmNextView {
    Ask(PnpmQuestion),
    Ready { in_shim: bool },
    Failed(Seq<char>),
}

impl View for PnpmNext {
    type V = PnpmNextView;

    open spec fn view(&self) -> PnpmNextView {
        match self {
            PnpmNext::Ask(question) => PnpmNextView::Ask(*question),
            PnpmNext::Ready { in_shim } => PnpmNextView::Ready { in_shim: *in_shim },
            PnpmNext::Failed(reason) => PnpmNextView::Failed(reason@),
        }
    }
}

/// What follows from an answer, and what is said first.
#[derive(Debug, PartialEq, Eq)]
pub struct PnpmMove {
    pub note: Option<String>,
    pub next: PnpmNext,
}

/// What a `PnpmMove` says.
#[verifier::ext_equal]
pub struct PnpmMoveView {
    pub note: Option<Seq<char>>,
    pub next: PnpmNextView,
}

impl View for PnpmMove {
    type V = PnpmMoveView;

    open spec fn view(&self) -> PnpmMoveView {
        PnpmMoveView { note: text::text_opt(self.note), next: self.next@ }
    }
}

/// A further question.
pub open spec fn asking(note: Option<Seq<char>>, question: PnpmQuestion) -> PnpmMoveView {
    PnpmMoveView { note, next: PnpmNextView::Ask(question) }
}

/// There is no pnpm.
pub open spec fn failing(reason: Seq<char>) -> PnpmMoveView {
    PnpmMoveView { note: None, next: PnpmNextView::Failed(reason) }
}

/// There is a pnpm.
pub open spec fn ready(note: Option<Seq<char>>, in_shim: bool) -> PnpmMoveView {
    PnpmMoveView { note, next: PnpmNextView::Ready { in_shim } }
}

/// What follows from the answer to a question.
pub open spec fn next(question: PnpmQuestion, reply: PnpmReply) -> PnpmMoveView {
    match question {
        PnpmQuestion::SystemPnpm => match reply {
            PnpmReply::Yes => ready(Some("使用系统 pnpm"@), false),
            _ => asking(None, PnpmQuestion::BundledNode),
        },
        PnpmQuestion::BundledNode => match reply {
            PnpmReply::Yes => asking(None, PnpmQuestion::ShimDirectory),
            _ => failing("未找到 pnpm，且没有随包 Node 可启用 corepack。"@),
        },
        PnpmQuestion::ShimDirectory => match reply {
            PnpmReply::Failed(reason) => failing(reason@),
            _ => asking(None, PnpmQuestion::ShimPnpm),
        },
        PnpmQuestion::ShimPnpm => match reply {
            PnpmReply::Yes => ready(Some("使用已启用的 pnpm"@), true),
            _ => asking(Some("正在通过 corepack 启用 pnpm"@), PnpmQuestion::Corepack),
        },
        PnpmQuestion::Corepack => match reply {
            PnpmReply::Yes => asking(None, PnpmQuestion::EnableCorepack),
            _ => failing("随包 Node 没有 corepack，无法启用 pnpm。"@),
        },
        PnpmQuestion::EnableCorepack => match reply {
            PnpmReply::Yes => asking(None, PnpmQuestion::EnabledPnpm),
            PnpmReply::No => failing("corepack 启用 pnpm 失败。"@),
            PnpmReply::Failed(reason) => failing("无法运行 corepack："@ + reason@),
        },
        PnpmQuestion::EnabledPnpm => match reply {
            PnpmReply::Yes => ready(None, true),
            _ => failing("已启用 corepack，但仍找不到 pnpm。"@),
        },
    }
}

fn ask(question: PnpmQuestion) -> (r: PnpmMove)
    ensures
        r@ == asking(None, question),
{
    PnpmMove { note: None, next: PnpmNext::Ask(question) }
}

fn fail(reason: String) -> (r: PnpmMove)
    ensures
        r@ == failing(reason@),
{
    PnpmMove { note: None, next: PnpmNext::Failed(reason) }
}

/// What is asked first.
pub fn first_question() -> (r: PnpmQuestion)
    ensures
        r == PnpmQuestion::SystemPnpm,
{
    PnpmQuestion::SystemPnpm
}

/// What follows from the answer to a question.
pub fn ensure_pnpm(question: PnpmQuestion, reply: PnpmReply) -> (r: PnpmMove)
    ensures
        r@ == next(question, reply),
{
    match question {
        PnpmQuestion::SystemPnpm => match reply {
            PnpmReply::Yes => PnpmMove {
                note: Some("使用系统 pnpm".to_string()),
                next: PnpmNext::Ready { in_shim: false },
            },
            _ => ask(PnpmQuestion::BundledNode),
        },
        PnpmQuestion::BundledNode => match reply {
            PnpmReply::Yes => ask(PnpmQuestion::ShimDirectory),
            _ => fail("未找到 pnpm，且没有随包 Node 可启用 corepack。".to_string()),
        },
        PnpmQuestion::ShimDirectory => match reply {
            PnpmReply::Failed(reason) => fail(reason),
            _ => ask(PnpmQuestion::ShimPnpm),
        },
        PnpmQuestion::ShimPnpm => match reply {
            PnpmReply::Yes => PnpmMove {
                note: Some("使用已启用的 pnpm".to_string()),
                next: PnpmNext::Ready { in_shim: true },
            },
            _ => PnpmMove {
                note: Some("正在通过 corepack 启用 pnpm".to_string()),
                next: PnpmNext::Ask(PnpmQuestion::Corepack),
            },
        },
        PnpmQuestion::Corepack => match reply {
            PnpmReply::Yes => ask(PnpmQuestion::EnableCorepack),
            _ => fail("随包 Node 没有 corepack，无法启用 pnpm。".to_string()),
        },
        PnpmQuestion::EnableCorepack => match reply {
            PnpmReply::Yes => ask(PnpmQuestion::EnabledPnpm),
            PnpmReply::No => fail("corepack 启用 pnpm 失败。".to_string()),
            PnpmReply::Failed(reason) => fail(text::join2("无法运行 corepack：", reason.as_str())),
        },
        PnpmQuestion::EnabledPnpm => match reply {
            PnpmReply::Yes => PnpmMove { note: None, next: PnpmNext::Ready { in_shim: true } },
            _ => fail("已启用 corepack，但仍找不到 pnpm。".to_string()),
        },
    }
}

/// How far the search has come.
pub open spec fn progress(question: PnpmQuestion) -> int {
    match question {
        PnpmQuestion::SystemPnpm => 0,
        PnpmQuestion::BundledNode => 1,
        PnpmQuestion::ShimDirectory => 2,
        PnpmQuestion::ShimPnpm => 3,
        PnpmQuestion::Corepack => 4,
        PnpmQuestion::EnableCorepack => 5,
        PnpmQuestion::EnabledPnpm => 6,
    }
}

/// The search comes to an end, and a pnpm is used only after it has been seen:
/// every answer leads on to the next question, to a failure, or, where it says
/// that there is a pnpm, to that one.
pub proof fn a_pnpm_is_seen_before_it_is_used(question: PnpmQuestion, reply: PnpmReply)
    ensures
        next(question, reply).next matches PnpmNextView::Ask(further) ==> progress(further)
            == progress(question) + 1,
        next(question, reply).next is Ready ==> reply is Yes && (question
            == PnpmQuestion::SystemPnpm || question == PnpmQuestion::ShimPnpm || question
            == PnpmQuestion::EnabledPnpm),
{
}

/// Wherever there is a pnpm, it is used: that of the system before one of our own,
/// and one that corepack has set up last.
pub proof fn a_pnpm_that_is_there_is_used()
    ensures
        next(PnpmQuestion::SystemPnpm, PnpmReply::Yes) == (PnpmMoveView {
            note: Some("使用系统 pnpm"@),
            next: PnpmNextView::Ready { in_shim: false },
        }),
        next(PnpmQuestion::ShimPnpm, PnpmReply::Yes) == (PnpmMoveView {
            note: Some("使用已启用的 pnpm"@),
            next: PnpmNextView::Ready { in_shim: true },
        }),
        next(PnpmQuestion::EnabledPnpm, PnpmReply::Yes) == (PnpmMoveView {
            note: None,
            next: PnpmNextView::Ready { in_shim: true },
        }),
{
}

/// The search goes on from one question to the next as long as it can, and fails
/// with the reason where it cannot.
pub proof fn the_search_goes_on_or_says_why(question: PnpmQuestion, reply: PnpmReply)
    ensures
        ({
            let r = next(question, reply);
            &&& question == PnpmQuestion::SystemPnpm && !(reply is Yes) ==> r.next
                == PnpmNextView::Ask(PnpmQuestion::BundledNode) && r.note is None
            &&& question == PnpmQuestion::BundledNode ==> r.note is None && r.next == (
            if reply is Yes {
                PnpmNextView::Ask(PnpmQuestion::ShimDirectory)
            } else {
                PnpmNextView::Failed("未找到 pnpm，且没有随包 Node 可启用 corepack。"@)
            })
            &&& question == PnpmQuestion::ShimDirectory ==> r.note is None && r.next == (
            match reply {
                PnpmReply::Failed(reason) => PnpmNextView::Failed(reason@),
                _ => PnpmNextView::Ask(PnpmQuestion::ShimPnpm),
            })
            &&& question == PnpmQuestion::ShimPnpm && !(reply is Yes) ==> r.note == Some(
                "正在通过 corepack 启用 pnpm"@,
            ) && r.next == PnpmNextView::Ask(PnpmQuestion::Corepack)
            &&& question == PnpmQuestion::Corepack ==> r.note is None && r.next == (
            if reply is Yes {
                PnpmNextView::Ask(PnpmQuestion::EnableCorepack)
            } else {
                PnpmNextView::Failed("随包 Node 没有 corepack，无法启用 pnpm。"@)
            })
            &&& question == PnpmQuestion::EnableCorepack ==> r.note is None && r.next == (
            match reply {
                PnpmReply::Yes => PnpmNextView::Ask(PnpmQuestion::EnabledPnpm),
                PnpmReply::No => PnpmNextView::Failed("corepack 启用 pnpm 失败。"@),
                PnpmReply::Failed(reason) => PnpmNextView::Failed("无法运行 corepack："@ + reason@),
            })
            &&& question == PnpmQuestion::EnabledPnpm && !(reply is Yes) ==> r.note is None
                && r.next == PnpmNextView::Failed("已启用 corepack，但仍找不到 pnpm。"@)
        }),
{
}

/// The programs have their own names on Windows.
pub proof fn programs_have_their_names(
    windows: bool,
    directory: &Location,
    program: &'static str,
    corepack: Location,
    first: PnpmQuestion,
)
    requires
        call_ensures(pnpm_program, (windows,), program),
        call_ensures(corepack_executable, (directory, windows), corepack),
        call_ensures(first_question, (), first),
    ensures
        windows ==> program@ == "pnpm.cmd"@ && corepack@ == directory@ + seq!["corepack.cmd"@],
        !windows ==> program@ == "pnpm"@ && corepack@ == directory@ + seq!["corepack"@],
        first == PnpmQuestion::SystemPnpm,
{
    assert(corepack@.len() == directory@.len() + 1);
    assert(windows ==> corepack@ =~= directory@ + seq!["corepack.cmd"@]);
    assert(!windows ==> corepack@ =~= directory@ + seq!["corepack"@]);
}

} // verus!
