//! The icons of the taskbar thumbnail toolbar and where they are looked for.
use vstd::prelude::*;

verus! {

/// What a toolbar icon shows.
#[derive(Debug, Clone, Copy, PartialEq, Eq, Structural)]
pub enum TaskbarIconKind {
    Previous,
    Play,
    Pause,
    Next,
}

/// The file name of an icon.
pub open spec fn file_name_spec(kind: TaskbarIconKind) -> Seq<char> {
    match kind {
        TaskbarIconKind::Previous => "backward-step-solid-full.ico"@,
        TaskbarIconKind::Play => "play-solid-full.ico"@,
        TaskbarIconKind::Pause => "pause-solid-full.ico"@,
        TaskbarIconKind::Next => "forward-step-solid-full.ico"@,
    }
}

/// The file name of an icon.
pub fn icon_file_name(kind: TaskbarIconKind) -> (name: &'static str)
    ensures
        name@ == file_name_spec(kind),
        kind == TaskbarIconKind::Previous ==> name@ == "backward-step-solid-full.ico"@,
        kind == TaskbarIconKind::Play ==> name@ == "play-solid-full.ico"@,
        kind == TaskbarIconKind::Pause ==> name@ == "pause-solid-full.ico"@,
        kind == TaskbarIconKind::Next ==> name@ == "forward-step-solid-full.ico"@,
{
    match kind {
        TaskbarIconKind::Previous => "backward-step-solid-full.ico",
        TaskbarIconKind::Play => "play-solid-full.ico",
        TaskbarIconKind::Pause => "pause-solid-full.ico",
        TaskbarIconKind::Next => "forward-step-solid-full.ico",
    }
}

/// The directory that an icon directory is given relative to.
#[derive(Debug, Clone, Copy, PartialEq, Eq, Structural)]
pub enum IconRoot {
    /// The directory of the running executable.
    ExeDir,
    /// The current directory.
    CurrentDir,
    /// The directory of the package that the program was built from.
    PackageDir,
}

/// A directory that may hold the icons.
#[derive(Debug, Clone, Copy, PartialEq, Eq, Structural)]
pub enum IconBase {
    ExeAssets,
    ExeKopuzAssets,
    CurrentAssets,
    CurrentKopuzAssets,
    PackageAssets,
}

impl IconBase {
    /// The directory that this one is given relative to.
    pub open spec fn root_spec(self) -> IconRoot {
        match self {
            IconBase::ExeAssets | IconBase::ExeKopuzAssets => IconRoot::ExeDir,
            IconBase::CurrentAssets | IconBase::CurrentKopuzAssets => IconRoot::CurrentDir,
            IconBase::PackageAssets => IconRoot::PackageDir,
        }
    }

    /// The path components below the root.
    pub open spec fn components_spec(self) -> Seq<Seq<char>> {
        match self {
            IconBase::ExeAssets | IconBase::CurrentAssets => seq!["assets"@, "toolbar_icons"@],
            IconBase::ExeKopuzAssets | IconBase::CurrentKopuzAssets => seq![
                "kopuz"@,
                "assets"@,
                "toolbar_icons"@,
            ],
            IconBase::PackageAssets => seq![".."@, "kopuz"@, "assets"@, "toolbar_icons"@],
        }
    }

    /// The directory that this one is given relative to.
    pub fn root(self) -> (root: IconRoot)
        ensures
            root == self.root_spec(),
            root == IconRoot::ExeDir <==> self == IconBase::ExeAssets || self
                == IconBase::ExeKopuzAssets,
            root == IconRoot::CurrentDir <==> self == IconBase::CurrentAssets || self
                == IconBase::CurrentKopuzAssets,
            root == IconRoot::PackageDir <==> self == IconBase::PackageAssets,
    {
        match self {
            IconBase::ExeAssets | IconBase::ExeKopuzAssets => IconRoot::ExeDir,
            IconBase::CurrentAssets | IconBase::CurrentKopuzAssets => IconRoot::CurrentDir,
            IconBase::PackageAssets => IconRoot::PackageDir,
        }
    }

    /// The path components below the root.
    pub fn components(self) -> (components: Vec<&'static str>)
        ensures
            components@.map_values(|c: &'static str| c@) == self.components_spec(),
            components@.len() >= 2,
            components@[components@.len() - 2]@ == "assets"@,
            components@[components@.len() - 1]@ == "toolbar_icons"@,
            self == IconBase::ExeAssets || self == IconBase::CurrentAssets ==> components@.len()
                == 2,
            self == IconBase::ExeKopuzAssets || self == IconBase::CurrentKopuzAssets
                ==> components@.len() == 3 && components@[0]@ == "kopuz"@,
            self == IconBase::PackageAssets ==> components@.len() == 4 && components@[0]@ == ".."@
                && components@[1]@ == "kopuz"@,
    {
        match self {
            IconBase::ExeAssets | IconBase::CurrentAssets => vec!["assets", "toolbar_icons"],
            IconBase::ExeKopuzAssets | IconBase::CurrentKopuzAssets => vec![
                "kopuz",
                "assets",
                "toolbar_icons",
            ],
            IconBase::PackageAssets => vec!["..", "kopuz", "assets", "toolbar_icons"],
        }
    }
}

/// The directories to look in, in order. Those next to the executable and in
/// the current directory are left out when the respective directory is
/// unknown.
pub open spec fn icon_bases(exe_dir_known: bool, current_dir_known: bool) -> Seq<IconBase> {
    let exe = if exe_dir_known {
        seq![IconBase::ExeAssets, IconBase::ExeKopuzAssets]
    } else {
        seq![]
    };
    let current = if current_dir_known {
        seq![IconBase::CurrentAssets, IconBase::CurrentKopuzAssets]
    } else {
        seq![]
    };
    exe + current + seq![IconBase::PackageAssets]
}

/// A search through the icon directories.
#[derive(Debug)]
pub struct IconSearch {
    dirs: Vec<IconBase>,
    passed: usize,
}

impl IconSearch {
    /// All directories of the search.
    pub closed spec fn bases(&self) -> Seq<IconBase> {
        self.dirs@
    }

    /// How many directories have been ruled out.
    pub closed spec fn rejected(&self) -> nat {
        self.passed as nat
    }

    /// No more directories have been ruled out than there are.
    pub open spec fn well_formed(&self) -> bool {
        self.rejected() <= self.bases().len()
    }

    /// The directory to look in next, if there is one left.
    pub fn candidate(&self) -> (base: Option<IconBase>)
        ensures
            base == (if self.rejected() < self.bases().len() {
                Some(self.bases()[self.rejected() as int])
            } else {
                None
            }),
    {
        if self.passed < self.dirs.len() {
            Some(self.dirs[self.passed])
        } else {
            None
        }
    }

    /// Rules the current directory out: it does not hold the icon.
    pub fn reject(&mut self)
        ensures
            old(self).well_formed() ==> final(self).well_formed(),
            final(self).bases() == old(self).bases(),
            final(self).rejected() == (if old(self).rejected() < old(self).bases().len() {
                old(self).rejected() + 1
            } else {
                old(self).rejected()
            }),
    {
        if self.passed < self.dirs.len() {
            self.passed += 1;
        }
    }
}

/// Begins the search for an icon file.
pub fn find_toolbar_icon(exe_dir_known: bool, current_dir_known: bool) -> (search: IconSearch)
    ensures
        search.well_formed(),
        search.bases() == icon_bases(exe_dir_known, current_dir_known),
        search.rejected() == 0,
        exe_dir_known && current_dir_known ==> search.bases() == seq![
            IconBase::ExeAssets,
            IconBase::ExeKopuzAssets,
            IconBase::CurrentAssets,
            IconBase::CurrentKopuzAssets,
            IconBase::PackageAssets,
        ],
        exe_dir_known && !current_dir_known ==> search.bases() == seq![
            IconBase::ExeAssets,
            IconBase::ExeKopuzAssets,
            IconBase::PackageAssets,
        ],
        !exe_dir_known && current_dir_known ==> search.bases() == seq![
            IconBase::CurrentAssets,
            IconBase::CurrentKopuzAssets,
            IconBase::PackageAssets,
        ],
        !exe_dir_known && !current_dir_known ==> search.bases() == seq![IconBase::PackageAssets],
{
    let mut dirs: Vec<IconBase> = Vec::new();
    if exe_dir_known {
        dirs.push(IconBase::ExeAssets);
        dirs.push(IconBase::ExeKopuzAssets);
    }
    if current_dir_known {
        dirs.push(IconBase::CurrentAssets);
        dirs.push(IconBase::CurrentKopuzAssets);
    }
    dirs.push(IconBase::PackageAssets);
    let search = IconSearch { dirs, passed: 0 };
    assert(search.bases() =~= icon_bases(exe_dir_known, current_dir_known));
    search
}

/// Ends a path in UTF-16 with the null unit that the system's functions
/// expect.
pub fn terminated(wide_path: Vec<u16>) -> (path: Vec<u16>)
    ensures
        path@ == wide_path@.push(0),
{
    let mut path = wide_path;
    path.push(0);
    path
}

/// Where a search ends that has ruled out `rejected` directories and rules out
/// each further one that does not hold the icon.
pub open spec fn search_result(bases: Seq<IconBase>, rejected: nat, holds: Seq<bool>) -> Option<
    IconBase,
>
    decreases bases.len() - rejected,
{
    if rejected >= bases.len() {
        None
    } else if holds[rejected as int] {
        Some(bases[rejected as int])
    } else {
        search_result(bases, rejected + 1, holds)
    }
}

/// A search ends at the first directory that holds the icon.
pub proof fn first_holder_is_found(bases: Seq<IconBase>, rejected: nat, holds: Seq<bool>, i: int)
    requires
        holds.len() == bases.len(),
        rejected <= i < bases.len(),
        holds[i],
        forall|j: int| rejected <= j < i ==> !#[trigger] holds[j],
    ensures
        search_result(bases, rejected, holds) == Some(bases[i]),
    decreases i - rejected,
{
    if rejected < i {
        assert(!holds[rejected as int]);
        first_holder_is_found(bases, rejected + 1, holds, i);
    }
}

/// A search comes to nothing when no directory holds the icon.
pub proof fn nothing_is_found_without_holder(
    bases: Seq<IconBase>,
    rejected: nat,
    holds: Seq<bool>,
)
    requires
        holds.len() == bases.len(),
        forall|j: int| rejected <= j < bases.len() ==> !#[trigger] holds[j],
    ensures
        search_result(bases, rejected, holds) is None,
    decreases bases.len() - rejected,
{
    if rejected < bases.len() {
        assert(!holds[rejected as int]);
        nothing_is_found_without_holder(bases, rejected + 1, holds);
    }
}

/// No directory is looked into twice, and the package's own directory is
/// always the last one.
pub proof fn bases_are_distinct(exe_dir_known: bool, current_dir_known: bool)
    ensures
        ({
            let bases = icon_bases(exe_dir_known, current_dir_known);
            &&& forall|i: int, j: int|
                0 <= i < j < bases.len() ==> #[trigger] bases[i] != #[trigger] bases[j]
            &&& bases.last() == IconBase::PackageAssets
        }),
{
}

/// Only directories that are known are looked into.
pub proof fn unknown_roots_are_skipped(exe_dir_known: bool, current_dir_known: bool, i: int)
    requires
        0 <= i < icon_bases(exe_dir_known, current_dir_known).len(),
    ensures
        ({
            let root = icon_bases(exe_dir_known, current_dir_known)[i].root_spec();
            &&& root == IconRoot::ExeDir ==> exe_dir_known
            &&& root == IconRoot::CurrentDir ==> current_dir_known
        }),
{
}

/// Different icons have different files.
pub proof fn file_names_are_distinct(a: TaskbarIconKind, b: TaskbarIconKind)
    ensures
        file_name_spec(a) == file_name_spec(b) <==> a == b,
{
    reveal_strlit("backward-step-solid-full.ico");
    reveal_strlit("play-solid-full.ico");
    reveal_strlit("pause-solid-full.ico");
    reveal_strlit("forward-step-solid-full.ico");
    assert(file_name_spec(TaskbarIconKind::Play).len() == 19);
    assert(file_name_spec(TaskbarIconKind::Pause).len() == 20);
    assert(file_name_spec(TaskbarIconKind::Next).len() == 27);
    assert(file_name_spec(TaskbarIconKind::Previous).len() == 28);
}

/// Every directory of icons is called `toolbar_icons` and lies in one called
/// `assets`; what stands before these two is nothing, `kopuz`, or the `kopuz`
/// next to the package.
pub proof fn icons_lie_in_assets(base: IconBase)
    ensures
        ({
            let path = base.components_spec();
            &&& path.len() >= 2
            &&& path.last() == "toolbar_icons"@
            &&& path[path.len() - 2] == "assets"@
            &&& base == IconBase::ExeAssets || base == IconBase::CurrentAssets <==> path.len() == 2
            &&& base == IconBase::ExeKopuzAssets || base == IconBase::CurrentKopuzAssets
                <==> path.len() == 3 && path[0] == "kopuz"@
            &&& base == IconBase::PackageAssets <==> path.len() == 4 && path[0] == ".."@ && path[1]
                == "kopuz"@
        }),
{
}

/// A directory is looked into exactly when the place that it is relative to is
/// known: below each known place without `kopuz` first, and then with it, the
/// executable's place before the current one.
pub proof fn known_places_are_looked_into(exe_dir_known: bool, current_dir_known: bool)
    ensures
        ({
            let bases = icon_bases(exe_dir_known, current_dir_known);
            let own: int = if exe_dir_known {
                2
            } else {
                0
            };
            let current: int = if current_dir_known {
                2
            } else {
                0
            };
            &&& bases.len() == own + current + 1
            &&& exe_dir_known ==> bases[0] == IconBase::ExeAssets && bases[1]
                == IconBase::ExeKopuzAssets
            &&& current_dir_known ==> bases[own] == IconBase::CurrentAssets && bases[own + 1]
                == IconBase::CurrentKopuzAssets
            &&& bases[own + current] == IconBase::PackageAssets
        }),
{
}

} // verus!
