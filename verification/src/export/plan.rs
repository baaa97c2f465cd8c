//! The commands that export a package as a tarball, and what follows on
//! each of them.
//!
//! A studio is created in a fresh directory, the package is installed in it,
//! and the installed files are packed. Each command runs only if the one
//! before it succeeded.

use vstd::prelude::*;

verus! {

/// One argument of a command.
#[derive(Clone, Debug, PartialEq, Eq)]
pub enum Arg {
    /// The text as it stands.
    Text(String),
    /// The path of the studio's root directory, which the caller creates.
    StudioRoot,
}

/// What an [`Arg`] stands for.
pub enum ArgView {
    Text(Seq<char>),
    StudioRoot,
}

impl View for Arg {
    type V = ArgView;

    open spec fn view(&self) -> ArgView {
        match self {
            Arg::Text(text) => ArgView::Text(text@),
            Arg::StudioRoot => ArgView::StudioRoot,
        }
    }
}

/// A program and the arguments it is run with.
#[derive(Clone, Debug, PartialEq, Eq)]
pub struct CommandLine {
    pub program: String,
    pub args: Vec<Arg>,
}

/// What a [`CommandLine`] stands for.
pub struct CommandLineView {
    pub program: Seq<char>,
    pub args: Seq<ArgView>,
}

impl View for CommandLine {
    type V = CommandLineView;

    open spec fn view(&self) -> CommandLineView {
        CommandLineView {
            program: self.program@,
            args: Seq::new(self.args@.len(), |i: int| self.args@[i]@),
        }
    }
}

/// `hab studio -r <root> new`
pub open spec fn studio_line() -> CommandLineView {
    CommandLineView {
        program: "hab"@,
        args: seq![
            ArgView::Text("studio"@),
            ArgView::Text("-r"@),
            ArgView::StudioRoot,
            ArgView::Text("new"@),
        ],
    }
}

/// `hab studio -q -r <root> run hab install -u <url> <packages>`
pub open spec fn install_line(hart_to_package: Seq<char>, builder_url: Seq<char>) -> CommandLineView {
    CommandLineView {
        program: "hab"@,
        args: seq![
            ArgView::Text("studio"@),
            ArgView::Text("-q"@),
            ArgView::Text("-r"@),
            ArgView::StudioRoot,
            ArgView::Text("run"@),
            ArgView::Text("hab"@),
            ArgView::Text("install"@),
            ArgView::Text("-u"@),
            ArgView::Text(builder_url),
            ArgView::Text(hart_to_package),
        ],
    }
}

/// `tar cpzf <tarball> -C <root> ./hab/pkgs ./hab/bin`
pub open spec fn tar_line(tarball: Seq<char>) -> CommandLineView {
    CommandLineView {
        program: "tar"@,
        args: seq![
            ArgView::Text("cpzf"@),
            ArgView::Text(tarball),
            ArgView::Text("-C"@),
            ArgView::StudioRoot,
            ArgView::Text("./hab/pkgs"@),
            ArgView::Text("./hab/bin"@),
        ],
    }
}

fn text(value: &str) -> (arg: Arg)
    ensures
        arg@ == ArgView::Text(value@),
{
    Arg::Text(String::from_str(value))
}

/// The command that creates the studio.
pub fn initiate_tar_command() -> (line: CommandLine)
    ensures
        line@ == studio_line(),
{
    let mut args: Vec<Arg> = Vec::new();
    args.push(text("studio"));
    args.push(text("-r"));
    args.push(Arg::StudioRoot);
    args.push(text("new"));
    let line = CommandLine { program: String::from_str("hab"), args };
    assert(line@.args =~= studio_line().args);
    line
}

/// The command that installs the packages in the studio, from the Builder
/// at the given URL.
pub fn install_command(hart_to_package: &str, builder_url: &str) -> (line: CommandLine)
    ensures
        line@ == install_line(hart_to_package@, builder_url@),
{
    let mut args: Vec<Arg> = Vec::new();
    args.push(text("studio"));
    args.push(text("-q"));
    args.push(text("-r"));
    args.push(Arg::StudioRoot);
    args.push(text("run"));
    args.push(text("hab"));
    args.push(text("install"));
    args.push(text("-u"));
    args.push(text(builder_url));
    args.push(text(hart_to_package));
    let line = CommandLine { program: String::from_str("hab"), args };
    assert(line@.args =~= install_line(hart_to_package@, builder_url@).args);
    line
}

/// The command that packs what the studio holds into the tarball of the
/// given name.
pub fn tar_command(tarball: &str) -> (line: CommandLine)
    ensures
        line@ == tar_line(tarball@),
{
    let mut args: Vec<Arg> = Vec::new();
    args.push(text("cpzf"));
    args.push(text(tarball));
    args.push(text("-C"));
    args.push(Arg::StudioRoot);
    args.push(text("./hab/pkgs"));
    args.push(text("./hab/bin"));
    let line = CommandLine { program: String::from_str("tar"), args };
    assert(line@.args =~= tar_line(tarball@).args);
    line
}

/// The commands of an export, in the order in which they run.
#[derive(Clone, Copy, Debug, PartialEq, Eq)]
pub enum Stage {
    CreateStudio,
    Install,
    Tar,
}

/// What follows on a command: what the user is told, and the stage that
/// runs next, if the export goes on.
#[derive(Clone, Copy, Debug, PartialEq, Eq)]
pub struct Progress {
    pub message: &'static str,
    pub next: Option<Stage>,
}

/// What a [`Progress`] stands for.
pub struct ProgressView {
    pub message: Seq<char>,
    pub next: Option<Stage>,
}

impl View for Progress {
    type V = ProgressView;

    open spec fn view(&self) -> ProgressView {
        ProgressView { message: self.message@, next: self.next }
    }
}

/// The stage that follows `stage` when its command ended as `success` says:
/// the next in order after a success, none after a failure or after the
/// last.
pub open spec fn next_stage(stage: Stage, success: bool) -> Option<Stage> {
    match stage {
        Stage::CreateStudio => if success {
            Some(Stage::Install)
        } else {
            None
        },
        Stage::Install => if success {
            Some(Stage::Tar)
        } else {
            None
        },
        Stage::Tar => None,
    }
}

/// Said when the studio was created.
pub const STUDIO_CREATED: &'static str =
    "Able to create studio to export package as tarball, proceeding...";

/// Said when the studio could not be created.
pub const STUDIO_FAILED: &'static str =
    "Unable to create a studio to export the package as a tarball.";

/// Said when the package was installed in the studio.
pub const INSTALLED: &'static str =
    "Hart package is installable in a studio, proceeding with exporting it to a tarball...";

/// Said when the package could not be installed in the studio.
pub const INSTALL_FAILED: &'static str =
    "Hart package is NOT installable in a studio and could not be exported into a tarball, please see the above error for more details.";

/// Said when the tarball was written.
pub const TARBALL_WRITTEN: &'static str = "Tarball export complete!";

/// Said when the tarball could not be written.
pub const TARBALL_FAILED: &'static str = "Unable to export package to tarball.";

/// What the user is told when the command of `stage` ended as `success`
/// says.
pub open spec fn message_of(stage: Stage, success: bool) -> Seq<char> {
    match stage {
        Stage::CreateStudio => if success {
            STUDIO_CREATED@
        } else {
            STUDIO_FAILED@
        },
        Stage::Install => if success {
            INSTALLED@
        } else {
            INSTALL_FAILED@
        },
        Stage::Tar => if success {
            TARBALL_WRITTEN@
        } else {
            TARBALL_FAILED@
        },
    }
}

/// Decides what follows on the command of `stage`, given whether it
/// succeeded.
pub fn proceed(stage: Stage, success: bool) -> (progress: Progress)
    ensures
        progress@.message == message_of(stage, success),
        progress@.next == next_stage(stage, success),
{
    match stage {
        Stage::CreateStudio => if success {
            Progress { message: STUDIO_CREATED, next: Some(Stage::Install) }
        } else {
            Progress { message: STUDIO_FAILED, next: None }
        },
        Stage::Install => if success {
            Progress { message: INSTALLED, next: Some(Stage::Tar) }
        } else {
            Progress { message: INSTALL_FAILED, next: None }
        },
        Stage::Tar => if success {
            Progress { message: TARBALL_WRITTEN, next: None }
        } else {
            Progress { message: TARBALL_FAILED, next: None }
        },
    }
}

/// Said when the studio command could not be started.
pub const STUDIO_NOT_STARTED: &'static str = "failed to create studio";

/// Said when the install command could not be started.
pub const INSTALL_NOT_STARTED: &'static str = "failed to install package in studio";

/// Said when the tar command could not be started.
pub const TAR_NOT_STARTED: &'static str = "failed to create tarball";

/// What is said when the command of `stage` cannot be started at all.
pub open spec fn not_started_message(stage: Stage) -> Seq<char> {
    match stage {
        Stage::CreateStudio => STUDIO_NOT_STARTED@,
        Stage::Install => INSTALL_NOT_STARTED@,
        Stage::Tar => TAR_NOT_STARTED@,
    }
}

/// Words the failure of a command that could not be started.
pub fn not_started(stage: Stage) -> (message: &'static str)
    ensures
        message@ == not_started_message(stage),
{
    match stage {
        Stage::CreateStudio => STUDIO_NOT_STARTED,
        Stage::Install => INSTALL_NOT_STARTED,
        Stage::Tar => TAR_NOT_STARTED,
    }
}

/// The tarball is packed only after the studio was created and the package
/// installed: `Tar` follows on nothing but a successful `Install`, and
/// `Install` on nothing but a successful `CreateStudio`.
pub proof fn law_stages_run_in_order(stage: Stage, success: bool)
    ensures
        next_stage(stage, success) == Some(Stage::Tar) <==> stage == Stage::Install && success,
        next_stage(stage, success) == Some(Stage::Install) <==> stage == Stage::CreateStudio && success,
        next_stage(stage, success) != Some(Stage::CreateStudio),
{
}

/// What an export is asked to do.
#[derive(Clone, Debug, PartialEq, Eq)]
pub struct BuildSpec {
    /// The package identifiers and artifact files to export.
    pub idents_or_archives: Vec<String>,
    /// The URL of the Builder that packages are installed from.
    pub url: String,
}

/// An export that is about to begin.
#[derive(Clone, Debug, PartialEq, Eq)]
pub struct Export {
    /// What is exported: the identifiers and files, separated by `, `.
    pub hart_to_package: String,
    /// The URL of the Builder that packages are installed from.
    pub builder_url: String,
    /// What the user is told at the beginning.
    pub announcement: String,
    /// The stage whose command runs first.
    pub first: Stage,
}

/// The items, each viewed.
pub open spec fn texts(items: Seq<String>) -> Seq<Seq<char>> {
    Seq::new(items.len(), |i: int| items[i]@)
}

/// The first `n` items written one after the other, `separator` between
/// each two.
pub open spec fn joined(items: Seq<Seq<char>>, separator: Seq<char>, n: int) -> Seq<char>
    decreases n,
{
    if n <= 0 {
        Seq::empty()
    } else if n == 1 {
        items[0]
    } else {
        joined(items, separator, n - 1) + separator + items[n - 1]
    }
}

/// Begins an export: joins what is to be exported into one argument and
/// words the announcement.
pub fn export(build_spec: BuildSpec) -> (export: Export)
    ensures
        export.hart_to_package@ == joined(
            texts(build_spec.idents_or_archives@),
            ", "@,
            build_spec.idents_or_archives@.len() as int,
        ),
        export.builder_url@ == build_spec.url@,
        export.announcement@ == "Building a tarball with: "@ + export.hart_to_package@,
        export.first == Stage::CreateStudio,
{
    let n: usize = build_spec.idents_or_archives.len();
    let mut hart_to_package = String::new();
    let mut i: usize = 0;
    while i < n
        invariant
            n == build_spec.idents_or_archives@.len(),
            i <= n,
            hart_to_package@ == joined(texts(build_spec.idents_or_archives@), ", "@, i as int),
        decreases n - i,
    {
        if i > 0 {
            hart_to_package.append(", ");
        }
        hart_to_package.append(build_spec.idents_or_archives[i].as_str());
        i = i + 1;
    }
    let mut announcement = String::from_str("Building a tarball with: ");
    announcement.append(hart_to_package.as_str());
    Export { hart_to_package, builder_url: build_spec.url, announcement, first: Stage::CreateStudio }
}

} // verus!
