//! Classifying a local directory before it is synced or registered: absent
//! or empty directories are cloned into, a repository's own top level is
//! synced, a directory with files and no repository may be registered.
use vstd::prelude::*;
use crate::effects::{args2, is_local_git, local_git, Effect, Reply, Step};
use crate::models::{RepositoryPathKind, RepositoryPathStatus};
use crate::text::{all_white_space, lemma_trim_padding, trim, trim_str};

verus! {

/// Where a classification stands: which effect's reply it waits for.
pub enum InspectStage {
    /// whether the path exists
    CheckingExists,
    /// whether it is a directory
    CheckingDirectory,
    /// whether it has entries
    ReadingDirectory,
    /// `git rev-parse --show-toplevel` inside it
    FindingTopLevel,
    /// whether the repository's top level is the directory itself
    ComparingTop { top: String },
}

/// A classification in progress; `path` is the trimmed directory.
pub struct InspectFlow {
    pub path: String,
    pub stage: InspectStage,
}

/// Whether a step ends the classification with `kind` and `message`.
pub open spec fn classifies(r: Step<InspectFlow, RepositoryPathStatus>, kind: RepositoryPathKind, message: Seq<char>) -> bool {
    r matches Step::Finish(s) && s.kind == kind && s.message@ == message
}

pub open spec fn missing_message() -> Seq<char> {
    "目录尚不存在，首次同步时将执行克隆"@
}

pub open spec fn empty_message() -> Seq<char> {
    "目录为空，首次同步时将执行克隆"@
}

/// Whether `e` asks whether paths `a` and `b` name the same file.
pub open spec fn compares_paths(e: Effect, a: Seq<char>, b: Seq<char>) -> bool {
    match e {
        Effect::SamePath(x, y) => x@ == a && y@ == b,
        _ => false,
    }
}

impl InspectStage {
    pub open spec fn comparing(self, top: Seq<char>) -> bool {
        match self {
            InspectStage::ComparingTop { top: t } => t@ == top,
            _ => false,
        }
    }
}

impl InspectFlow {
    /// Whether `reply` is of the kind the classification waits for.
    pub open spec fn expects(self, reply: Reply) -> bool {
        match self.stage {
            InspectStage::ReadingDirectory => reply is Entries,
            InspectStage::FindingTopLevel => reply is Output,
            _ => reply is Flag,
        }
    }

    /// The step that follows `reply`.
    pub open spec fn resumes(self, reply: Reply, r: Step<InspectFlow, RepositoryPathStatus>) -> bool {
        let p = self.path@;
        match self.stage {
            InspectStage::CheckingExists => match reply {
                Reply::Flag(false) => classifies(r, RepositoryPathKind::Missing, missing_message()),
                _ => (r matches Step::Perform(e, f) && f.path@ == p && e == Effect::IsDirectory(
                    self.path,
                ) && f.stage is CheckingDirectory),
            },
            InspectStage::CheckingDirectory => match reply {
                Reply::Flag(false) => classifies(r, RepositoryPathKind::Invalid, "目标路径不是文件夹"@),
                _ => (r matches Step::Perform(e, f) && f.path@ == p && e == Effect::ReadDirectory(
                    self.path,
                ) && f.stage is ReadingDirectory),
            },
            InspectStage::ReadingDirectory => match reply {
                Reply::Entries(Err(e)) => classifies(
                    r,
                    RepositoryPathKind::Invalid,
                    "无法读取目标目录："@ + e@,
                ),
                Reply::Entries(Ok(false)) => classifies(r, RepositoryPathKind::Empty, empty_message()),
                _ => (r matches Step::Perform(e, f) && f.path@ == p && is_local_git(
                    e,
                    Some(p),
                    seq!["rev-parse"@, "--show-toplevel"@],
                ) && f.stage is FindingTopLevel),
            },
            InspectStage::FindingTopLevel => match reply {
                Reply::Output(Ok(top)) => (r matches Step::Perform(e, f) && f.path@ == p
                    && compares_paths(e, trim(top@), p) && f.stage.comparing(trim(top@))),
                _ => classifies(r, RepositoryPathKind::NonGit, "目录包含现有文件，可注册为 Git 仓库"@),
            },
            InspectStage::ComparingTop { top } => match reply {
                Reply::Flag(true) => classifies(r, RepositoryPathKind::Git, "已识别为 Git 仓库"@),
                _ => classifies(
                    r,
                    RepositoryPathKind::NestedGit,
                    "目录位于其他 Git 仓库内："@ + top@,
                ),
            },
        }
    }
}

fn finish(kind: RepositoryPathKind, message: String) -> (r: Step<InspectFlow, RepositoryPathStatus>)
    ensures
        classifies(r, kind, message@),
{
    Step::Finish(RepositoryPathStatus { kind, message })
}

/// How classifying `value` starts: a blank value is invalid; otherwise the
/// trimmed path is asked whether it exists.
pub open spec fn starts_classifying(value: Seq<char>, r: Step<InspectFlow, RepositoryPathStatus>) -> bool {
    &&& trim(value).len() == 0 ==> classifies(r, RepositoryPathKind::Invalid, "请先选择本地目录"@)
    &&& trim(value).len() > 0 ==> (r matches Step::Perform(e, f) && f.path@ == trim(value)
        && e == Effect::PathExists(f.path) && f.stage is CheckingExists)
}

/// Starts classifying the directory `value` (trimmed): a blank value is
/// invalid; otherwise the first effect asks whether it exists.
pub fn inspect_path(value: &str) -> (r: Step<InspectFlow, RepositoryPathStatus>)
    ensures
        starts_classifying(value@, r),
{
    let path = trim_str(value);
    if path.as_str().is_empty() {
        return finish(RepositoryPathKind::Invalid, String::from_str("请先选择本地目录"));
    }
    let p = path.clone();
    assert(p == path);
    Step::Perform(Effect::PathExists(p), InspectFlow { path, stage: InspectStage::CheckingExists })
}

impl InspectFlow {
    /// Continues the classification with the reply to its last effect.
    pub fn resume(self, reply: Reply) -> (r: Step<InspectFlow, RepositoryPathStatus>)
        requires
            self.expects(reply),
        ensures
            self.resumes(reply, r),
    {
        match self.stage {
            InspectStage::CheckingExists => match reply {
                Reply::Flag(false) => finish(
                    RepositoryPathKind::Missing,
                    String::from_str("目录尚不存在，首次同步时将执行克隆"),
                ),
                _ => {
                    let p = self.path.clone();
                    Step::Perform(
                        Effect::IsDirectory(p),
                        InspectFlow { path: self.path, stage: InspectStage::CheckingDirectory },
                    )
                },
            },
            InspectStage::CheckingDirectory => match reply {
                Reply::Flag(false) => finish(
                    RepositoryPathKind::Invalid,
                    String::from_str("目标路径不是文件夹"),
                ),
                _ => {
                    let p = self.path.clone();
                    Step::Perform(
                        Effect::ReadDirectory(p),
                        InspectFlow { path: self.path, stage: InspectStage::ReadingDirectory },
                    )
                },
            },
            InspectStage::ReadingDirectory => match reply {
                Reply::Entries(Err(e)) => finish(
                    RepositoryPathKind::Invalid,
                    String::from_str("无法读取目标目录：").concat(e.as_str()),
                ),
                Reply::Entries(Ok(false)) => finish(
                    RepositoryPathKind::Empty,
                    String::from_str("目录为空，首次同步时将执行克隆"),
                ),
                _ => {
                    let e = local_git(Some(self.path.clone()), args2("rev-parse", "--show-toplevel"));
                    Step::Perform(e, InspectFlow { path: self.path, stage: InspectStage::FindingTopLevel })
                },
            },
            InspectStage::FindingTopLevel => match reply {
                Reply::Output(Ok(top)) => {
                    let top = trim_str(top.as_str());
                    let a = top.clone();
                    let b = self.path.clone();
                    Step::Perform(
                        Effect::SamePath(a, b),
                        InspectFlow { path: self.path, stage: InspectStage::ComparingTop { top } },
                    )
                },
                _ => finish(
                    RepositoryPathKind::NonGit,
                    String::from_str("目录包含现有文件，可注册为 Git 仓库"),
                ),
            },
            InspectStage::ComparingTop { top } => match reply {
                Reply::Flag(true) => finish(RepositoryPathKind::Git, String::from_str("已识别为 Git 仓库")),
                _ => finish(
                    RepositoryPathKind::NestedGit,
                    String::from_str("目录位于其他 Git 仓库内：").concat(top.as_str()),
                ),
            },
        }
    }
}

/// Whether a directory of this kind is cloned into by its first sync.
pub open spec fn is_clone_target(kind: RepositoryPathKind) -> bool {
    kind == RepositoryPathKind::Missing || kind == RepositoryPathKind::Empty
}

/// Whether a directory of this kind is cloned into by its first sync.
pub fn clone_target(kind: RepositoryPathKind) -> (r: bool)
    ensures
        r == is_clone_target(kind),
{
    match kind {
        RepositoryPathKind::Missing | RepositoryPathKind::Empty => true,
        _ => false,
    }
}


/// Whitespace around a directory does not change how it is classified: the
/// padded and the bare value end alike when blank, and otherwise start from
/// the same trimmed path with the same first question.
pub proof fn law_padding_keeps_classification(
    before: Seq<char>,
    value: Seq<char>,
    after: Seq<char>,
    padded: Step<InspectFlow, RepositoryPathStatus>,
    bare: Step<InspectFlow, RepositoryPathStatus>,
)
    requires
        all_white_space(before),
        all_white_space(after),
        starts_classifying(before + value + after, padded),
        starts_classifying(value, bare),
    ensures
        padded is Finish <==> bare is Finish,
        padded matches Step::Finish(s) ==> (bare matches Step::Finish(t) && s.kind == t.kind
            && s.message@ == t.message@),
        padded matches Step::Perform(e, f) ==> (bare matches Step::Perform(d, g) && f.path@
            == g.path@ && e == Effect::PathExists(f.path) && d == Effect::PathExists(g.path)
            && f.stage is CheckingExists && g.stage is CheckingExists),
{
    lemma_trim_padding(before, value, after);
}

} // verus!
