//! Flags for selecting packages in a workspace, and the partition of the
//! workspace members into selected and excluded packages.

use vstd::prelude::*;

verus! {

/// One package of a dependency graph snapshot.
pub struct PackageNode {
    /// Unique identifier of the package.
    pub id: String,
    /// Name of the package.
    pub name: String,
}

/// What dependency resolution found, when it was run.
pub struct Resolution {
    /// The package that the graph was resolved for, if there is one.
    pub root: Option<String>,
}

/// A read-only snapshot of a package graph.
pub struct PackageGraph {
    /// Every package of the graph, members and dependencies alike.
    pub packages: Vec<PackageNode>,
    /// Identifiers of the packages that belong to the workspace.
    pub workspace_members: Vec<String>,
    /// Resolution data; absent when the graph was produced without it.
    pub resolve: Option<Resolution>,
}

/// The characters of each string of a sequence.
pub open spec fn names_view(v: Seq<String>) -> Seq<Seq<char>> {
    v.map_values(|s: String| s@)
}

impl PackageGraph {
    /// Whether the package at index `i` belongs to the workspace.
    pub open spec fn is_member(&self, i: int) -> bool {
        names_view(self.workspace_members@).contains(self.packages@[i].id@)
    }

    /// The identifier of the root package, when resolution found one.
    pub open spec fn root_id(&self) -> Option<Seq<char>> {
        match self.resolve {
            Some(r) => match r.root {
                Some(root) => Some(root@),
                None => None,
            },
            None => None,
        }
    }
}

/// Flags that select packages of a workspace.
pub struct Workspace {
    /// Packages to process.
    pub package: Vec<String>,
    /// Process all packages in the workspace.
    pub workspace: bool,
    /// Process all packages in the workspace (alias of `workspace`).
    pub all: bool,
    /// Packages to leave out.
    pub exclude: Vec<String>,
}

impl Default for Workspace {
    fn default() -> (r: Self)
        ensures
            r.package@.len() == 0,
            !r.workspace,
            !r.all,
            r.exclude@.len() == 0,
    {
        Workspace { package: Vec::new(), workspace: false, all: false, exclude: Vec::new() }
    }
}

/// How packages are picked, as a mathematical value.
pub enum Mode {
    Default,
    All,
    OptOut(Seq<Seq<char>>),
    Explicit(Seq<Seq<char>>),
}

/// The selection mode that the flags give; the first matching row wins.
pub open spec fn mode_of(all: bool, exclude: Seq<Seq<char>>, package: Seq<Seq<char>>) -> Mode {
    if !all {
        if exclude.len() == 0 {
            if package.len() == 0 {
                Mode::Default
            } else {
                Mode::Explicit(package)
            }
        } else if package.len() == 0 {
            Mode::OptOut(exclude)
        } else {
            Mode::Explicit(package)
        }
    } else if exclude.len() == 0 {
        Mode::All
    } else {
        Mode::OptOut(exclude)
    }
}

/// Whether the package at index `i` is in the base set of `mode`.
pub open spec fn in_base(mode: Mode, g: PackageGraph, i: int) -> bool {
    match mode {
        Mode::Default => match g.resolve {
            Some(r) => match r.root {
                Some(root) => g.packages@[i].id@ == root@,
                None => g.is_member(i),
            },
            None => false,
        },
        Mode::All => g.is_member(i),
        Mode::OptOut(_) => g.is_member(i),
        Mode::Explicit(names) => g.is_member(i) && names.contains(g.packages@[i].name@),
    }
}

impl Workspace {
    /// Whether either of the two flags that select the whole workspace is set.
    pub open spec fn selects_all(&self) -> bool {
        self.workspace || self.all
    }

    /// The selection mode of these flags.
    pub open spec fn mode(&self) -> Mode {
        mode_of(self.selects_all(), names_view(self.exclude@), names_view(self.package@))
    }

    /// Whether the package at index `i` of `g` is selected by these flags.
    pub open spec fn selects(&self, g: PackageGraph, i: int) -> bool {
        in_base(self.mode(), g, i) && !names_view(self.exclude@).contains(g.packages@[i].name@)
    }

    /// The partition of the workspace members among the first `k` packages of
    /// `g`: the indices of the selected ones and of the excluded ones, in order.
    pub open spec fn partition_upto(&self, g: PackageGraph, k: nat) -> (Seq<usize>, Seq<usize>)
        decreases k,
    {
        if k == 0 {
            (Seq::empty(), Seq::empty())
        } else {
            let (s, e) = self.partition_upto(g, (k - 1) as nat);
            let i = k - 1;
            if !g.is_member(i) {
                (s, e)
            } else if self.selects(g, i) {
                (s.push(i as usize), e)
            } else {
                (s, e.push(i as usize))
            }
        }
    }

    /// The partition of all workspace members of `g`.
    pub open spec fn partition(&self, g: PackageGraph) -> (Seq<usize>, Seq<usize>) {
        self.partition_upto(g, g.packages@.len())
    }
}

/// The selection mode, borrowing the name lists of the flags.
pub enum Packages<'p> {
    Default,
    All,
    OptOut(&'p [String]),
    Packages(&'p [String]),
}

impl<'p> Packages<'p> {
    /// The mathematical value of this mode.
    pub open spec fn view(&self) -> Mode {
        match *self {
            Packages::Default => Mode::Default,
            Packages::All => Mode::All,
            Packages::OptOut(e) => Mode::OptOut(names_view(e@)),
            Packages::Packages(p) => Mode::Explicit(names_view(p@)),
        }
    }

    /// Picks the selection mode from the flags.
    pub fn from_flags(all: bool, exclude: &'p [String], package: &'p [String]) -> (r: Self)
        ensures
            r@ == mode_of(all, names_view(exclude@), names_view(package@)),
    {
        if !all {
            if exclude.len() == 0 {
                if package.len() == 0 {
                    Packages::Default
                } else {
                    Packages::Packages(package)
                }
            } else if package.len() == 0 {
                Packages::OptOut(exclude)
            } else {
                Packages::Packages(package)
            }
        } else if exclude.len() == 0 {
            Packages::All
        } else {
            Packages::OptOut(exclude)
        }
    }
}

/// Whether `list` holds a string equal to `s`.
fn contains_str(list: &[String], s: &String) -> (r: bool)
    ensures
        r == names_view(list@).contains(s@),
{
    let mut i: usize = 0;
    while i < list.len()
        invariant
            i <= list@.len(),
            forall|j: int| 0 <= j < i ==> list@[j]@ != s@,
        decreases list@.len() - i,
    {
        if list[i] == *s {
            assert(names_view(list@)[i as int] == s@);
            return true;
        }
        i = i + 1;
    }
    assert forall|j: int| 0 <= j < names_view(list@).len() implies names_view(list@)[j] != s@ by {
        assert(list@[j]@ != s@);
    }
    false
}

impl Workspace {
    /// Partitions the workspace members of `meta` into the selected and the
    /// excluded packages, given as indices into `meta.packages`.
    ///
    /// Packages that are not workspace members appear on neither side. The
    /// default selection needs resolution data to find the root package.
    pub fn partition_packages(&self, meta: &PackageGraph) -> (r: (Vec<usize>, Vec<usize>))
        requires
            self.mode() == Mode::Default ==> meta.resolve.is_some(),
        ensures
            (r.0@, r.1@) == self.partition(*meta),
    {
        let selection = Packages::from_flags(self.workspace || self.all, self.exclude.as_slice(), self.package.as_slice());
        let mut selected: Vec<usize> = Vec::new();
        let mut excluded: Vec<usize> = Vec::new();
        let n = meta.packages.len();
        let mut i: usize = 0;
        while i < n
            invariant
                n == meta.packages@.len(),
                i <= n,
                selection@ == self.mode(),
                self.mode() == Mode::Default ==> meta.resolve.is_some(),
                (selected@, excluded@) == self.partition_upto(*meta, i as nat),
            decreases n - i,
        {
            let p = &meta.packages[i];
            let member = contains_str(meta.workspace_members.as_slice(), &p.id);
            if member {
                let base = match selection {
                    Packages::Default => match &meta.resolve {
                        Some(resolve) => match &resolve.root {
                            Some(root) => p.id == *root,
                            None => true,
                        },
                        None => false,
                    },
                    Packages::All => true,
                    Packages::OptOut(_) => true,
                    Packages::Packages(patterns) => contains_str(patterns, &p.name),
                };
                if base && !contains_str(self.exclude.as_slice(), &p.name) {
                    selected.push(i);
                } else {
                    excluded.push(i);
                }
            }
            i = i + 1;
        }
        (selected, excluded)
    }
}

/// Which indices the partition of the first `k` packages holds on each side.
pub proof fn lemma_partition_upto_contents(ws: Workspace, g: PackageGraph, k: nat)
    requires
        k <= g.packages@.len(),
        g.packages@.len() <= usize::MAX,
    ensures
        forall|i: usize| #[trigger] ws.partition_upto(g, k).0.contains(i)
            <==> (i < k && g.is_member(i as int) && ws.selects(g, i as int)),
        forall|i: usize| #[trigger] ws.partition_upto(g, k).1.contains(i)
            <==> (i < k && g.is_member(i as int) && !ws.selects(g, i as int)),
    decreases k,
{
    broadcast use vstd::seq_lib::lemma_seq_contains_after_push;

    if k > 0 {
        lemma_partition_upto_contents(ws, g, (k - 1) as nat);
        let prev = ws.partition_upto(g, (k - 1) as nat);
        let last = (k - 1) as usize;
        let cur = ws.partition_upto(g, k);
        if !g.is_member(last as int) {
            assert(cur == prev);
        } else if ws.selects(g, last as int) {
            assert(cur == (prev.0.push(last), prev.1));
        } else {
            assert(cur == (prev.0, prev.1.push(last)));
        }
    } else {
        assert forall|i: usize| !ws.partition_upto(g, k).0.contains(i) && !ws.partition_upto(g, k).1.contains(i) by {
            assert(ws.partition_upto(g, k).0.len() == 0);
            assert(ws.partition_upto(g, k).1.len() == 0);
        }
    }
}

/// The partition is exhaustive and disjoint: every workspace member is on
/// exactly one side, and nothing else is on either side.
pub proof fn lemma_partition_exhaustive(ws: Workspace, g: PackageGraph)
    requires
        g.packages@.len() <= usize::MAX,
    ensures
        forall|i: usize|
            (#[trigger] ws.partition(g).0.contains(i) || ws.partition(g).1.contains(i))
                <==> (i < g.packages@.len() && g.is_member(i as int)),
        forall|i: usize|
            !(#[trigger] ws.partition(g).0.contains(i) && ws.partition(g).1.contains(i)),
{
    lemma_partition_upto_contents(ws, g, g.packages@.len());
}

/// With no flags set and a resolved root, exactly the root package is
/// selected, and every other workspace member is excluded.
pub proof fn lemma_default_selects_root(ws: Workspace, g: PackageGraph, root: Seq<char>)
    requires
        ws.package@.len() == 0,
        ws.exclude@.len() == 0,
        !ws.workspace,
        !ws.all,
        g.root_id() == Some(root),
        g.packages@.len() <= usize::MAX,
    ensures
        forall|i: usize| #[trigger] ws.partition(g).0.contains(i)
            <==> (i < g.packages@.len() && g.is_member(i as int) && g.packages@[i as int].id@ == root),
        forall|i: usize| #[trigger] ws.partition(g).1.contains(i)
            <==> (i < g.packages@.len() && g.is_member(i as int) && g.packages@[i as int].id@ != root),
{
    lemma_partition_upto_contents(ws, g, g.packages@.len());
    assert(ws.mode() == Mode::Default);
}

/// `--all` and `--workspace` mean the same: two flag sets with the same
/// package and exclude lists that agree on whether either of them is set
/// partition every graph alike.
pub proof fn lemma_all_is_workspace(a: Workspace, b: Workspace, g: PackageGraph)
    requires
        a.package@ == b.package@,
        a.exclude@ == b.exclude@,
        a.all || a.workspace <==> b.all || b.workspace,
    ensures
        a.mode() == b.mode(),
        a.partition(g) == b.partition(g),
{
    lemma_same_mode_same_partition(a, b, g, g.packages@.len());
}

/// Two flag sets with the same mode and exclude list agree on every prefix.
proof fn lemma_same_mode_same_partition(a: Workspace, b: Workspace, g: PackageGraph, k: nat)
    requires
        a.mode() == b.mode(),
        a.exclude@ == b.exclude@,
    ensures
        a.partition_upto(g, k) == b.partition_upto(g, k),
    decreases k,
{
    if k > 0 {
        lemma_same_mode_same_partition(a, b, g, (k - 1) as nat);
    }
}

/// Partitioning is a function of the flags and the graph: two runs on the
/// same inputs give the same result.
pub proof fn lemma_partition_deterministic(
    ws: Workspace,
    g: PackageGraph,
    r1: (Seq<usize>, Seq<usize>),
    r2: (Seq<usize>, Seq<usize>),
)
    requires
        r1 == ws.partition(g),
        r2 == ws.partition(g),
    ensures
        r1 == r2,
{
}

} // verus!
