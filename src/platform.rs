use vstd::prelude::*;

verus! {

/// Why a governor change failed.
#[derive(Debug, Clone, Copy, PartialEq, Eq, Structural)]
pub enum GovernorError {
    /// The cpufreq base directory could not be listed.
    BaseUnavailable,
    /// No CPU policy accepted the write.
    NoPolicyApplied,
}

/// What happened to one entry of the cpufreq directory.
#[derive(Debug, Clone, Copy, PartialEq, Eq, Structural)]
pub enum PolicyWrite {
    /// Not a policy directory, or it has no governor node.
    Skipped,
    Written,
    Failed,
}

/// `s` holds the G-Mode marker `0xab` starting at `i`.
pub open spec fn marker_at(s: Seq<char>, i: int) -> bool {
    0 <= i && i + 4 <= s.len() && s[i] == '0' && s[i + 1] == 'x' && s[i + 2] == 'a' && s[i
        + 3] == 'b'
}

pub open spec fn has_marker(s: Seq<char>) -> bool {
    exists|i: int| #[trigger] marker_at(s, i)
}

/// Whether a read-back of the ACPI interface contains the G-Mode marker `0xab`.
pub fn contains_marker(content: &str) -> (r: bool)
    ensures
        r == has_marker(content@),
{
    let n = content.unicode_len();
    if n < 4 {
        assert forall|i: int| !marker_at(content@, i) by {}
        return false;
    }
    let mut i: usize = 0;
    while i <= n - 4
        invariant
            n == content@.len(),
            4 <= n,
            i + 3 <= n,
            forall|j: int| 0 <= j < i ==> !#[trigger] marker_at(content@, j),
        decreases n - i,
    {
        if content.get_char(i) == '0' && content.get_char(i + 1) == 'x' && content.get_char(i + 2)
            == 'a' && content.get_char(i + 3) == 'b' {
            assert(marker_at(content@, i as int));
            return true;
        }
        i = i + 1;
    }
    assert forall|j: int| !#[trigger] marker_at(content@, j) by {
        if 0 <= j && j + 4 <= n {
            assert(j < i);
        }
    }
    false
}

/// The G-Mode bit as derived from a query: `query_written` tells whether the
/// query payload could be written, `readback` is what the interface held
/// afterwards (empty when it could not be read). A query that could not be
/// written reads as off.
pub fn is_gmode_on(query_written: bool, readback: &str) -> (r: bool)
    ensures
        r == (query_written && has_marker(readback@)),
{
    if !query_written {
        return false;
    }
    contains_marker(readback)
}

/// An empty read-back holds no marker, so it reads as G-Mode off.
pub proof fn lemma_empty_readback_is_off()
    ensures
        !has_marker(Seq::<char>::empty()),
{
    assert forall|i: int| !#[trigger] marker_at(Seq::<char>::empty(), i) by {}
}

pub open spec fn policy_prefix() -> Seq<char> {
    seq!['p', 'o', 'l', 'i', 'c', 'y']
}

/// Whether a cpufreq directory entry names a CPU policy (`policy...`).
pub fn is_policy_entry(name: &str) -> (r: bool)
    ensures
        r == (name@.len() >= 6 && name@.subrange(0, 6) == policy_prefix()),
{
    let n = name.unicode_len();
    if n < 6 {
        return false;
    }
    let r = name.get_char(0) == 'p' && name.get_char(1) == 'o' && name.get_char(2) == 'l'
        && name.get_char(3) == 'i' && name.get_char(4) == 'c' && name.get_char(5) == 'y';
    if r {
        assert(name@.subrange(0, 6) =~= policy_prefix());
    } else {
        assert(name@.subrange(0, 6) != policy_prefix()) by {
            if name@.subrange(0, 6) == policy_prefix() {
                assert(name@.subrange(0, 6)[0] == name@[0]);
                assert(name@.subrange(0, 6)[1] == name@[1]);
                assert(name@.subrange(0, 6)[2] == name@[2]);
                assert(name@.subrange(0, 6)[3] == name@[3]);
                assert(name@.subrange(0, 6)[4] == name@[4]);
                assert(name@.subrange(0, 6)[5] == name@[5]);
            }
        }
    }
    r
}

pub open spec fn any_written(results: Seq<PolicyWrite>) -> bool {
    exists|i: int| 0 <= i < results.len() && #[trigger] results[i] == PolicyWrite::Written
}

pub open spec fn governor_result(listed: bool, results: Seq<PolicyWrite>) -> Result<
    (),
    GovernorError,
> {
    if !listed {
        Err(GovernorError::BaseUnavailable)
    } else if any_written(results) {
        Ok(())
    } else {
        Err(GovernorError::NoPolicyApplied)
    }
}

/// The outcome of a governor change from the per-policy results: it succeeds
/// when the base directory was listed and at least one policy took the write;
/// failures on other policies are tolerated.
pub fn governor_outcome(listed: bool, results: &Vec<PolicyWrite>) -> (r: Result<(), GovernorError>)
    ensures
        r == governor_result(listed, results@),
{
    if !listed {
        return Err(GovernorError::BaseUnavailable);
    }
    let mut i: usize = 0;
    while i < results.len()
        invariant
            listed,
            i <= results@.len(),
            forall|j: int| 0 <= j < i ==> results@[j] != PolicyWrite::Written,
        decreases results@.len() - i,
    {
        if let PolicyWrite::Written = results[i] {
            assert(results@[i as int] == PolicyWrite::Written);
            return Ok(());
        }
        i = i + 1;
    }
    Err(GovernorError::NoPolicyApplied)
}

} // verus!
