use vstd::prelude::*;

verus! {

/// Which configuration file is being loaded.
#[derive(Debug, Clone, Copy, PartialEq, Eq, Structural)]
pub enum ConfigKind {
    /// The main configuration: every failure on the way to its file is fatal.
    Main,
    /// The message-of-the-day file: a failed example copy falls through.
    Motd,
}

/// Why loading failed.
#[derive(Debug, Clone, Copy, PartialEq, Eq, Structural)]
pub enum LoadError {
    /// A file or directory could not be read, created, written or copied.
    Io,
    /// The text is not a valid document of the expected schema.
    Parse,
    /// The executable's location could not be determined.
    PathResolution,
}

/// What a load needs to know before it starts.
#[derive(Debug, Clone, Copy, PartialEq, Eq, Structural)]
pub struct LoadSetup {
    pub kind: ConfigKind,
    /// How many bundled example files may be tried, or `None` where the
    /// executable's directory is unknown.
    pub examples: Option<usize>,
    /// Whether the target path has a parent directory.
    pub has_parent: bool,
}

/// One step of a load; each is performed by the caller and answered with a
/// `bool` (the file exists, or the operation succeeded).
#[derive(Debug, Clone, Copy, PartialEq, Eq, Structural)]
pub enum LoadAction {
    /// Does the target file exist?
    CheckTarget,
    /// Does the example file of this index exist?
    CheckExample(usize),
    /// Create the target's parent directory, then copy this example.
    CreateParent(usize),
    /// Copy the example file of this index, verbatim, to the target.
    CopyExample(usize),
    /// Write the compiled-in default to the target.
    WriteDefault,
    /// Copy the bundled images into the configuration directory; a failure
    /// there is only a warning.
    ProvisionAssets,
    /// Read the target's text.
    Read,
    /// Parse the text that was read.
    Parse,
    /// The parsed value is the result.
    Finish,
    /// Loading failed.
    Fail(LoadError),
}

pub open spec fn example_count(s: LoadSetup) -> nat {
    match s.examples {
        Some(n) => n as nat,
        None => 0,
    }
}

/// Probing of example `i` onward: the next candidate, or the default when
/// none is left.
pub open spec fn probe_from(s: LoadSetup, i: int) -> LoadAction {
    if 0 <= i < example_count(s) {
        LoadAction::CheckExample(i as usize)
    } else {
        LoadAction::WriteDefault
    }
}

/// What follows once the target file has been put in place.
pub open spec fn after_materialized(s: LoadSetup) -> LoadAction {
    if s.kind == ConfigKind::Main && s.has_parent {
        LoadAction::ProvisionAssets
    } else {
        LoadAction::Read
    }
}

/// The step after `last` was performed with outcome `ok`.
pub open spec fn next_action(s: LoadSetup, last: LoadAction, ok: bool) -> LoadAction {
    match last {
        LoadAction::CheckTarget => if ok {
            LoadAction::Read
        } else if s.examples.is_none() && s.kind == ConfigKind::Main {
            LoadAction::Fail(LoadError::PathResolution)
        } else {
            probe_from(s, 0)
        },
        LoadAction::CheckExample(i) => if !ok {
            probe_from(s, i + 1)
        } else if s.has_parent {
            LoadAction::CreateParent(i)
        } else {
            LoadAction::CopyExample(i)
        },
        LoadAction::CreateParent(i) => if ok || s.kind == ConfigKind::Motd {
            LoadAction::CopyExample(i)
        } else {
            LoadAction::Fail(LoadError::Io)
        },
        LoadAction::CopyExample(i) => if ok {
            after_materialized(s)
        } else if s.kind == ConfigKind::Motd {
            probe_from(s, i + 1)
        } else {
            LoadAction::Fail(LoadError::Io)
        },
        LoadAction::WriteDefault => if ok {
            after_materialized(s)
        } else {
            LoadAction::Fail(LoadError::Io)
        },
        LoadAction::ProvisionAssets => LoadAction::Read,
        LoadAction::Read => if ok {
            LoadAction::Parse
        } else {
            LoadAction::Fail(LoadError::Io)
        },
        LoadAction::Parse => if ok {
            LoadAction::Finish
        } else {
            LoadAction::Fail(LoadError::Parse)
        },
        LoadAction::Finish => LoadAction::Finish,
        LoadAction::Fail(e) => LoadAction::Fail(e),
    }
}

/// Where a load stands after `last`, answered in turn by `outcomes`.
pub open spec fn run(s: LoadSetup, last: LoadAction, outcomes: Seq<bool>) -> LoadAction
    decreases outcomes.len(),
{
    if outcomes.len() == 0 {
        last
    } else {
        run(s, next_action(s, last, outcomes[0]), outcomes.drop_first())
    }
}

/// `n` negative answers.
pub open spec fn misses(n: nat) -> Seq<bool> {
    Seq::new(n, |i: int| false)
}

fn probe_from_exec(s: &LoadSetup, i: usize) -> (r: LoadAction)
    ensures
        r == probe_from(*s, i as int),
{
    match s.examples {
        Some(n) => if i < n {
            LoadAction::CheckExample(i)
        } else {
            LoadAction::WriteDefault
        },
        None => LoadAction::WriteDefault,
    }
}

fn after_materialized_exec(s: &LoadSetup) -> (r: LoadAction)
    ensures
        r == after_materialized(*s),
{
    if s.kind == ConfigKind::Main && s.has_parent {
        LoadAction::ProvisionAssets
    } else {
        LoadAction::Read
    }
}

impl LoadAction {
    /// The first step of every load.
    pub fn start() -> (r: LoadAction)
        ensures
            r == LoadAction::CheckTarget,
    {
        LoadAction::CheckTarget
    }

    /// Whether the load is over.
    pub fn is_final(&self) -> (r: bool)
        ensures
            r == (*self == LoadAction::Finish || self is Fail),
    {
        match self {
            LoadAction::Finish => true,
            LoadAction::Fail(_) => true,
            _ => false,
        }
    }
}

/// Decides the step of a load that follows `last`, performed with outcome `ok`.
///
/// An existing file is read and parsed at once. A missing one is first made:
/// from the first bundled example found, else from the compiled-in default.
/// For the main file a failed copy, a failed directory creation or an unknown
/// executable directory is fatal; for the message-of-the-day file they fall
/// through to the next example or to the default. Images are provisioned for
/// the main file only, and whatever comes of that, reading follows.
pub fn load_step(setup: &LoadSetup, last: LoadAction, ok: bool) -> (r: LoadAction)
    ensures
        r == next_action(*setup, last, ok),
{
    match last {
        LoadAction::CheckTarget => if ok {
            LoadAction::Read
        } else if setup.examples.is_none() && setup.kind == ConfigKind::Main {
            LoadAction::Fail(LoadError::PathResolution)
        } else {
            probe_from_exec(setup, 0)
        },
        LoadAction::CheckExample(i) => if !ok {
            if i < usize::MAX {
                probe_from_exec(setup, i + 1)
            } else {
                LoadAction::WriteDefault
            }
        } else if setup.has_parent {
            LoadAction::CreateParent(i)
        } else {
            LoadAction::CopyExample(i)
        },
        LoadAction::CreateParent(i) => if ok || setup.kind == ConfigKind::Motd {
            LoadAction::CopyExample(i)
        } else {
            LoadAction::Fail(LoadError::Io)
        },
        LoadAction::CopyExample(i) => if ok {
            after_materialized_exec(setup)
        } else if setup.kind == ConfigKind::Motd {
            if i < usize::MAX {
                probe_from_exec(setup, i + 1)
            } else {
                LoadAction::WriteDefault
            }
        } else {
            LoadAction::Fail(LoadError::Io)
        },
        LoadAction::WriteDefault => if ok {
            after_materialized_exec(setup)
        } else {
            LoadAction::Fail(LoadError::Io)
        },
        LoadAction::ProvisionAssets => LoadAction::Read,
        LoadAction::Read => if ok {
            LoadAction::Parse
        } else {
            LoadAction::Fail(LoadError::Io)
        },
        LoadAction::Parse => if ok {
            LoadAction::Finish
        } else {
            LoadAction::Fail(LoadError::Parse)
        },
        LoadAction::Finish => LoadAction::Finish,
        LoadAction::Fail(e) => LoadAction::Fail(e),
    }
}

proof fn lemma_run_append(s: LoadSetup, last: LoadAction, a: Seq<bool>, b: Seq<bool>)
    ensures
        run(s, last, a + b) == run(s, run(s, last, a), b),
    decreases a.len(),
{
    if a.len() > 0 {
        assert((a + b).drop_first() =~= a.drop_first() + b);
        lemma_run_append(s, next_action(s, last, a[0]), a.drop_first(), b);
    } else {
        assert(a + b =~= b);
    }
}

proof fn lemma_skip_missing(s: LoadSetup, i: nat, m: nat)
    requires
        i + m < example_count(s),
    ensures
        run(s, LoadAction::CheckExample(i as usize), misses(m)) == LoadAction::CheckExample(
            (i + m) as usize,
        ),
    decreases m,
{
    if m > 0 {
        assert(misses(m).drop_first() =~= misses((m - 1) as nat));
        lemma_skip_missing(s, i + 1, (m - 1) as nat);
    }
}

/// An existing file is read and then parsed, with no step that writes in
/// between; text that does not parse ends in a parse error.
pub proof fn lemma_existing_file_is_only_read(s: LoadSetup)
    ensures
        next_action(s, LoadAction::CheckTarget, true) == LoadAction::Read,
        next_action(s, LoadAction::Read, true) == LoadAction::Parse,
        run(s, LoadAction::CheckTarget, seq![true, true, false]) == LoadAction::Fail(LoadError::Parse),
        run(s, LoadAction::CheckTarget, seq![true, true, true]) == LoadAction::Finish,
{
    reveal_with_fuel(run, 4);
}

/// A missing file, where no bundled example is found at any candidate, is
/// written as the compiled-in default, which is then read back.
pub proof fn lemma_no_example_writes_default(s: LoadSetup)
    requires
        s.examples is Some || s.kind == ConfigKind::Motd,
    ensures
        run(s, LoadAction::CheckTarget, misses(example_count(s) + 1)) == LoadAction::WriteDefault,
        run(s, LoadAction::CheckTarget, misses(example_count(s) + 1).push(true)) == after_materialized(s),
{
    let n = example_count(s);
    assert(misses(n + 1) =~= seq![false] + misses(n));
    lemma_run_append(s, LoadAction::CheckTarget, seq![false], misses(n));
    reveal_with_fuel(run, 2);
    if n > 0 {
        assert(misses(n) =~= misses((n - 1) as nat) + seq![false]);
        lemma_run_append(s, LoadAction::CheckExample(0), misses((n - 1) as nat), seq![false]);
        lemma_skip_missing(s, 0, (n - 1) as nat);
    } else {
        assert(misses(n) =~= Seq::<bool>::empty());
    }
    assert(misses(n + 1).push(true) =~= misses(n + 1) + seq![true]);
    lemma_run_append(s, LoadAction::CheckTarget, misses(n + 1), seq![true]);
}

/// Images are provisioned for the main file alone, once its file is in place;
/// whether that succeeds or not, reading follows.
pub proof fn lemma_provisioning_is_never_fatal(s: LoadSetup, ok: bool)
    ensures
        next_action(s, LoadAction::ProvisionAssets, ok) == LoadAction::Read,
        (after_materialized(s) == LoadAction::ProvisionAssets) == (s.kind == ConfigKind::Main
            && s.has_parent),
{
}

/// Where the first bundled example found is the one of index `k`, a missing
/// file is made by copying that example, not by writing the default.
pub proof fn lemma_first_example_is_copied(s: LoadSetup, k: nat)
    requires
        k < example_count(s),
        s.has_parent,
    ensures
        run(s, LoadAction::CheckTarget, misses(k + 1).push(true).push(true))
            == LoadAction::CopyExample(k as usize),
        run(s, LoadAction::CheckTarget, misses(k + 1).push(true).push(true).push(true))
            == after_materialized(s),
{
    let o = misses(k + 1).push(true).push(true);
    assert(o =~= seq![false] + misses(k) + seq![true, true]);
    lemma_run_append(s, LoadAction::CheckTarget, seq![false] + misses(k), seq![true, true]);
    lemma_run_append(s, LoadAction::CheckTarget, seq![false], misses(k));
    reveal_with_fuel(run, 3);
    lemma_skip_missing(s, 0, k);
    assert(o.push(true) =~= o + seq![true]);
    lemma_run_append(s, LoadAction::CheckTarget, o, seq![true]);
}

} // verus!
