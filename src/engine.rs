//! The deployment engine's decisions: for each entry of the raw and template
//! trees, whether it is skipped, copied or rendered and where it lands; and a
//! template pass over files already read, in which a failing file does not
//! stop the others.
use vstd::prelude::*;
use vstd::string::*;
use crate::entry::{
    is_stylesheet_path, is_template_candidate, is_template_path, selected, should_deploy,
    allow_view, stylesheet_output, stylesheet_target, DeployEntry,
};
use crate::entry::is_binary_extension;
use crate::paths::{extension_of, is_under, map_path, mapped_path};
use crate::render::{is_literal_text, render_template, rendered_of};
use crate::settings::Settings;

verus! {

/// Where the trees are read from and where they land.
pub struct TreeLayout {
    /// The dotfiles checkout, holding `raw/` and `template/`.
    pub dotfiles_root: String,
    /// The destination, mirroring both trees.
    pub home: String,
}

/// Why an entry leads to no output.
#[derive(Clone, Copy, Debug, PartialEq, Eq, Structural)]
pub enum SkipReason {
    /// Directories are walked, never written.
    Directory,
    /// The allow-list of the deploy does not name it.
    FilteredOut,
    /// It lies in the template tree but is not a template.
    NotTemplate,
    /// Its path does not lie below the tree being walked.
    OutsideTree,
}

/// What is done with one entry, as decided from its path alone.
pub enum EntryAction {
    Skip(SkipReason),
    /// Copy the file as it is to the path given.
    Copy(String),
    /// Render the file to the first path; where a second path is given, the
    /// written file is a stylesheet source to compile to it.
    Render(String, Option<String>),
}

pub ghost enum Plan {
    Skip(SkipReason),
    Copy(Seq<char>),
    Render(Seq<char>, Option<Seq<char>>),
}

pub open spec fn opt_view(o: Option<String>) -> Option<Seq<char>> {
    match o {
        Some(s) => Some(s@),
        None => None,
    }
}

impl EntryAction {
    pub open spec fn view(&self) -> Plan {
        match self {
            EntryAction::Skip(r) => Plan::Skip(*r),
            EntryAction::Copy(t) => Plan::Copy(t@),
            EntryAction::Render(t, c) => Plan::Render(t@, opt_view(*c)),
        }
    }
}

pub open spec fn raw_root_of(root: Seq<char>) -> Seq<char> {
    root + seq!['/', 'r', 'a', 'w']
}

pub open spec fn template_root_of(root: Seq<char>) -> Seq<char> {
    root + seq!['/', 't', 'e', 'm', 'p', 'l', 'a', 't', 'e']
}

/// What the raw pass does with an entry: every selected file below `raw/` is
/// copied to the mirrored place under the destination.
pub open spec fn raw_plan(
    p: Seq<char>,
    is_dir: bool,
    root: Seq<char>,
    home: Seq<char>,
    allow: Option<Seq<Seq<char>>>,
) -> Plan {
    if is_dir {
        Plan::Skip(SkipReason::Directory)
    } else if !selected(p, is_dir, allow) {
        Plan::Skip(SkipReason::FilteredOut)
    } else if !is_under(p, raw_root_of(root)) {
        Plan::Skip(SkipReason::OutsideTree)
    } else {
        Plan::Copy(mapped_path(p, raw_root_of(root), home))
    }
}

/// What the template pass does with an entry: every selected template below
/// `template/` is rendered to the mirrored place under the destination, and a
/// stylesheet source among them is compiled beside it.
pub open spec fn template_plan(
    p: Seq<char>,
    is_dir: bool,
    root: Seq<char>,
    home: Seq<char>,
    allow: Option<Seq<Seq<char>>>,
) -> Plan {
    if is_dir {
        Plan::Skip(SkipReason::Directory)
    } else if !selected(p, is_dir, allow) {
        Plan::Skip(SkipReason::FilteredOut)
    } else if !is_template_path(p) {
        Plan::Skip(SkipReason::NotTemplate)
    } else if !is_under(p, template_root_of(root)) {
        Plan::Skip(SkipReason::OutsideTree)
    } else {
        let t = mapped_path(p, template_root_of(root), home);
        Plan::Render(
            t,
            if is_stylesheet_path(t) {
                Some(stylesheet_output(t))
            } else {
                None
            },
        )
    }
}

/// A file whose extension is that of a binary format is never rendered,
/// wherever it lies and whatever the allow-list.
pub proof fn binary_files_are_never_rendered(
    p: Seq<char>,
    is_dir: bool,
    root: Seq<char>,
    home: Seq<char>,
    allow: Option<Seq<Seq<char>>>,
)
    requires
        extension_of(p) matches Some(e) && is_binary_extension(e),
    ensures
        !(template_plan(p, is_dir, root, home, allow) is Render),
{
}

/// A selected file below the template tree whose extension is not that of a
/// binary format is rendered.
pub proof fn text_files_are_rendered(
    p: Seq<char>,
    root: Seq<char>,
    home: Seq<char>,
    allow: Option<Seq<Seq<char>>>,
)
    requires
        extension_of(p) matches Some(e) && !is_binary_extension(e),
        selected(p, false, allow),
        is_under(p, template_root_of(root)),
    ensures
        template_plan(p, false, root, home, allow) is Render,
{
}

impl TreeLayout {
    pub fn new(dotfiles_root: String, home: String) -> (r: Self)
        ensures
            r.dotfiles_root@ == dotfiles_root@,
            r.home@ == home@,
    {
        TreeLayout { dotfiles_root, home }
    }

    /// The tree of files that are copied as they are.
    pub fn raw_root(&self) -> (r: String)
        ensures
            r@ == raw_root_of(self.dotfiles_root@),
    {
        let mut r = String::from_str(self.dotfiles_root.as_str());
        let sub = "/raw";
        proof {
            reveal_strlit("/raw");
        }
        r.append(sub);
        assert(r@ =~= raw_root_of(self.dotfiles_root@));
        r
    }

    /// The tree of files that are rendered.
    pub fn template_root(&self) -> (r: String)
        ensures
            r@ == template_root_of(self.dotfiles_root@),
    {
        let mut r = String::from_str(self.dotfiles_root.as_str());
        let sub = "/template";
        proof {
            reveal_strlit("/template");
        }
        r.append(sub);
        assert(r@ =~= template_root_of(self.dotfiles_root@));
        r
    }
}

/// Decides what the raw pass does with `entry`.
pub fn plan_raw_entry(entry: &DeployEntry, layout: &TreeLayout, allow: &Option<Vec<String>>) -> (r:
    EntryAction)
    ensures
        r@ == raw_plan(
            entry.path@,
            entry.is_dir,
            layout.dotfiles_root@,
            layout.home@,
            allow_view(*allow),
        ),
{
    if entry.is_dir {
        return EntryAction::Skip(SkipReason::Directory);
    }
    if !should_deploy(entry, allow) {
        return EntryAction::Skip(SkipReason::FilteredOut);
    }
    let root = layout.raw_root();
    match map_path(entry.path.as_str(), root.as_str(), layout.home.as_str()) {
        None => EntryAction::Skip(SkipReason::OutsideTree),
        Some(t) => EntryAction::Copy(t),
    }
}

/// Decides what the template pass does with `entry`.
pub fn plan_template_entry(
    entry: &DeployEntry,
    layout: &TreeLayout,
    allow: &Option<Vec<String>>,
) -> (r: EntryAction)
    ensures
        r@ == template_plan(
            entry.path@,
            entry.is_dir,
            layout.dotfiles_root@,
            layout.home@,
            allow_view(*allow),
        ),
{
    if entry.is_dir {
        return EntryAction::Skip(SkipReason::Directory);
    }
    if !should_deploy(entry, allow) {
        return EntryAction::Skip(SkipReason::FilteredOut);
    }
    if !is_template_candidate(entry.path.as_str()) {
        return EntryAction::Skip(SkipReason::NotTemplate);
    }
    let root = layout.template_root();
    match map_path(entry.path.as_str(), root.as_str(), layout.home.as_str()) {
        None => EntryAction::Skip(SkipReason::OutsideTree),
        Some(t) => {
            let css = stylesheet_target(t.as_str());
            EntryAction::Render(t, css)
        },
    }
}

/// A file of the template tree as the walk found it, with its text where it
/// could be read as text.
pub struct SourceFile {
    pub entry: DeployEntry,
    pub contents: Option<String>,
}

/// A rendered file to write, and where its compiled stylesheet goes if it is
/// a stylesheet source.
pub struct FileWrite {
    pub target: String,
    pub text: String,
    pub stylesheet: Option<String>,
}

/// What became of one file in the template pass.
pub enum Outcome {
    Skipped(SkipReason),
    Written(FileWrite),
    /// A template whose text could not be read.
    Unreadable,
    /// A template that failed to render, with the renderer's message.
    RenderFailed(String),
}

/// `o` is what becomes of a file with plan `plan` and text `contents` when
/// rendered against `settings`: skipped for the plan's reason; for a template
/// that was read, written to the planned place with what it renders to, or
/// failed where it does not render. Text that opens no directive is written as
/// it is.
pub open spec fn outcome_fits(
    o: Outcome,
    plan: Plan,
    contents: Option<String>,
    settings: Map<Seq<char>, toml::Value>,
) -> bool {
    match plan {
        Plan::Skip(reason) => o == Outcome::Skipped(reason),
        Plan::Copy(_) => false,
        Plan::Render(t, css) => match contents {
            None => o is Unreadable,
            Some(c) => match o {
                Outcome::Written(w) => w.target@ == t && opt_view(w.stylesheet) == css
                    && rendered_of(c@, settings) == Some(w.text@) && (is_literal_text(c@)
                    ==> w.text@ == c@),
                Outcome::RenderFailed(_) => rendered_of(c@, settings) is None && !is_literal_text(
                    c@,
                ),
                _ => false,
            },
        },
    }
}

pub open spec fn file_plan(
    f: SourceFile,
    layout: TreeLayout,
    allow: Option<Vec<String>>,
) -> Plan {
    template_plan(
        f.entry.path@,
        f.entry.is_dir,
        layout.dotfiles_root@,
        layout.home@,
        allow_view(allow),
    )
}

/// Takes one file of the template tree through the pass: selection,
/// classification, rendering against `settings`.
pub fn deploy_template(
    file: &SourceFile,
    layout: &TreeLayout,
    allow: &Option<Vec<String>>,
    settings: &Settings,
) -> (r: Outcome)
    ensures
        outcome_fits(r, file_plan(*file, *layout, *allow), file.contents, settings@),
{
    match plan_template_entry(&file.entry, layout, allow) {
        EntryAction::Skip(reason) => Outcome::Skipped(reason),
        EntryAction::Copy(_) => Outcome::Skipped(SkipReason::NotTemplate),
        EntryAction::Render(target, stylesheet) => match &file.contents {
            None => Outcome::Unreadable,
            Some(c) => match render_template(c.as_str(), settings) {
                Ok(text) => Outcome::Written(FileWrite { target, text, stylesheet }),
                Err(message) => Outcome::RenderFailed(message),
            },
        },
    }
}

/// The template pass over files already found and read: one outcome for each
/// file, in order. A file that fails stops nothing.
pub fn template_pass(
    files: &Vec<SourceFile>,
    layout: &TreeLayout,
    allow: &Option<Vec<String>>,
    settings: &Settings,
) -> (r: Vec<Outcome>)
    ensures
        r@.len() == files@.len(),
        forall|i: int|
            0 <= i < files@.len() ==> outcome_fits(
                #[trigger] r@[i],
                file_plan(files@[i], *layout, *allow),
                files@[i].contents,
                settings@,
            ),
{
    let mut r: Vec<Outcome> = Vec::new();
    let mut i: usize = 0;
    while i < files.len()
        invariant
            i <= files@.len(),
            r@.len() == i,
            forall|j: int|
                0 <= j < i ==> outcome_fits(
                    #[trigger] r@[j],
                    file_plan(files@[j], *layout, *allow),
                    files@[j].contents,
                    settings@,
                ),
        decreases files@.len() - i,
    {
        let o = deploy_template(&files[i], layout, allow, settings);
        r.push(o);
        i += 1;
    }
    r
}

pub open spec fn n_written(s: Seq<Outcome>) -> nat
    decreases s.len(),
{
    if s.len() == 0 {
        0
    } else {
        n_written(s.drop_last()) + if s.last() is Written {
            1nat
        } else {
            0nat
        }
    }
}

pub open spec fn is_failure(o: Outcome) -> bool {
    o is Unreadable || o is RenderFailed
}

pub open spec fn n_failed(s: Seq<Outcome>) -> nat
    decreases s.len(),
{
    if s.len() == 0 {
        0
    } else {
        n_failed(s.drop_last()) + if is_failure(s.last()) {
            1nat
        } else {
            0nat
        }
    }
}

/// How a pass ended. Failures of single files are reported, not fatal.
#[derive(Clone, Copy, Debug, PartialEq, Eq, Structural)]
pub enum PassStatus {
    /// No file failed.
    Complete,
    /// Some files failed; the others were done.
    Partial,
}

impl PassStatus {
    /// The process's exit code for a run that ended so: 0 where every file
    /// was done, 2 where some failed and the others were done. Fatal errors,
    /// which stop a run before any file, are reported as 1.
    pub fn exit_code(&self) -> (r: i32)
        ensures
            *self == PassStatus::Complete ==> r == 0,
            *self == PassStatus::Partial ==> r == 2,
    {
        match self {
            PassStatus::Complete => 0,
            PassStatus::Partial => 2,
        }
    }
}

/// Counts of a pass's outcomes.
pub struct PassSummary {
    pub written: usize,
    pub failed: usize,
    pub skipped: usize,
}

impl PassSummary {
    pub fn status(&self) -> (r: PassStatus)
        ensures
            r == (if self.failed == 0 {
                PassStatus::Complete
            } else {
                PassStatus::Partial
            }),
    {
        if self.failed == 0 {
            PassStatus::Complete
        } else {
            PassStatus::Partial
        }
    }
}

/// Counts the files written, failed and skipped.
pub fn summarize(outcomes: &Vec<Outcome>) -> (r: PassSummary)
    ensures
        r.written == n_written(outcomes@),
        r.failed == n_failed(outcomes@),
        r.written + r.failed + r.skipped == outcomes@.len(),
{
    let mut written: usize = 0;
    let mut failed: usize = 0;
    let mut skipped: usize = 0;
    let mut i: usize = 0;
    while i < outcomes.len()
        invariant
            i <= outcomes@.len(),
            written == n_written(outcomes@.subrange(0, i as int)),
            failed == n_failed(outcomes@.subrange(0, i as int)),
            written + failed + skipped == i,
        decreases outcomes@.len() - i,
    {
        assert(outcomes@.subrange(0, i + 1).drop_last() =~= outcomes@.subrange(0, i as int));
        match &outcomes[i] {
            Outcome::Written(_) => written += 1,
            Outcome::Skipped(_) => skipped += 1,
            _ => failed += 1,
        }
        i += 1;
    }
    assert(outcomes@.subrange(0, i as int) =~= outcomes@);
    PassSummary { written, failed, skipped }
}

} // verus!
