//! Schema migrations and the application version kept in the database.
use vstd::prelude::*;
use core::cmp::Ordering;
use crate::models::filter::lex_order;
use crate::text::{chars_of, split_chars, split_on, parse_u32, parse_u32_spec, views_of_chars};

verus! {

/// `s` read as `major.minor.patch`: its first three pieces between dots,
/// each a `u32` (pieces after the third are ignored).
pub open spec fn parse_version_spec(s: Seq<char>) -> Option<(u32, u32, u32)> {
    let parts = split_on(s, '.');
    if parts.len() >= 3 {
        match (parse_u32_spec(parts[0]), parse_u32_spec(parts[1]), parse_u32_spec(parts[2])) {
            (Some(a), Some(b), Some(c)) => Some((a, b, c)),
            _ => None,
        }
    } else {
        None
    }
}

/// The ordering of -1, 0 or 1.
pub open spec fn ordering_of_sign(x: int) -> Ordering {
    if x < 0 {
        Ordering::Less
    } else if x == 0 {
        Ordering::Equal
    } else {
        Ordering::Greater
    }
}

/// The ordering of two numbers.
pub open spec fn ordering_of_nums(a: u32, b: u32) -> Ordering {
    if a < b {
        Ordering::Less
    } else if a == b {
        Ordering::Equal
    } else {
        Ordering::Greater
    }
}

/// The order of two versions: numerically by major, minor and patch when
/// both read as versions, else by the text's code points.
pub open spec fn version_order(a: Seq<char>, b: Seq<char>) -> Ordering {
    match (parse_version_spec(a), parse_version_spec(b)) {
        (Some(x), Some(y)) => if x.0 != y.0 {
            ordering_of_nums(x.0, y.0)
        } else if x.1 != y.1 {
            ordering_of_nums(x.1, y.1)
        } else {
            ordering_of_nums(x.2, y.2)
        },
        _ => ordering_of_sign(lex_order(a, b)),
    }
}

/// Reads `major.minor.patch` from a version string.
pub fn parse_version(v: &str) -> (r: Option<(u32, u32, u32)>)
    ensures
        r == parse_version_spec(v@),
{
    let chars = chars_of(v);
    let parts = split_chars(&chars, '.');
    assert(views_of_chars(parts@) == split_on(v@, '.'));
    if parts.len() < 3 {
        return None;
    }
    assert(parts@[0]@ == split_on(v@, '.')[0]);
    assert(parts@[1]@ == split_on(v@, '.')[1]);
    assert(parts@[2]@ == split_on(v@, '.')[2]);
    match (parse_u32(&parts[0]), parse_u32(&parts[1]), parse_u32(&parts[2])) {
        (Some(a), Some(b), Some(c)) => Some((a, b, c)),
        _ => None,
    }
}

/// The ordering of two numbers (executable).
fn order_nums(a: u32, b: u32) -> (r: Ordering)
    ensures
        r == ordering_of_nums(a, b),
{
    if a < b {
        Ordering::Less
    } else if a == b {
        Ordering::Equal
    } else {
        Ordering::Greater
    }
}

/// Orders two code-point sequences (executable).
fn order_text(a: &str, b: &str) -> (r: Ordering)
    ensures
        r == ordering_of_sign(lex_order(a@, b@)),
{
    let x = chars_of(a);
    let y = chars_of(b);
    let s = crate::models::filter::compare_chars(&x, &y);
    if s < 0 {
        Ordering::Less
    } else if s == 0 {
        Ordering::Equal
    } else {
        Ordering::Greater
    }
}

/// Compares two version strings such as `0.2.0` and `0.10.0`: numerically
/// by major, minor and patch, or by their text when either is no version.
pub fn compare_versions(a: &str, b: &str) -> (r: Ordering)
    ensures
        r == version_order(a@, b@),
{
    match (parse_version(a), parse_version(b)) {
        (Some(x), Some(y)) => if x.0 != y.0 {
            order_nums(x.0, y.0)
        } else if x.1 != y.1 {
            order_nums(x.1, y.1)
        } else {
            order_nums(x.2, y.2)
        },
        _ => order_text(a, b),
    }
}

/// What to do with the application version stored in the database.
#[derive(Debug, Clone, Copy, PartialEq, Eq, Structural)]
pub enum VersionAction {
    /// No version is stored: record the current one.
    Record,
    /// The stored version is the current one: nothing to write.
    Unchanged,
    /// The stored version is older: record the current one.
    Upgrade,
    /// The stored version is newer: warn and record the current one.
    Downgrade,
}

impl VersionAction {
    /// Whether the current version is to be written.
    pub open spec fn writes(self) -> bool {
        self != VersionAction::Unchanged
    }

    /// Whether the current version is to be written (executable).
    pub fn needs_write(&self) -> (r: bool)
        ensures
            r == self.writes(),
    {
        *self != VersionAction::Unchanged
    }
}

/// The action for a stored version and the current one.
pub open spec fn version_action_spec(stored: Option<Seq<char>>, current: Seq<char>) -> VersionAction {
    match stored {
        None => VersionAction::Record,
        Some(s) => if s == current {
            VersionAction::Unchanged
        } else {
            match version_order(s, current) {
                Ordering::Less => VersionAction::Upgrade,
                Ordering::Greater => VersionAction::Downgrade,
                Ordering::Equal => VersionAction::Unchanged,
            }
        },
    }
}

/// Decides what to do with the stored application version, given the
/// version this build carries.
pub fn version_action(stored: Option<&str>, current: &str) -> (r: VersionAction)
    ensures
        r == version_action_spec(
            match stored {
                Some(s) => Some(s@),
                None => None,
            },
            current@,
        ),
{
    match stored {
        None => VersionAction::Record,
        Some(s) => {
            let a = chars_of(s);
            let b = chars_of(current);
            if crate::text::same_chars(&a, &b) {
                VersionAction::Unchanged
            } else {
                match compare_versions(s, current) {
                    Ordering::Less => VersionAction::Upgrade,
                    Ordering::Greater => VersionAction::Downgrade,
                    Ordering::Equal => VersionAction::Unchanged,
                }
            }
        },
    }
}

/// The schema versions still to apply, in their order: those above the
/// current version.
pub fn pending_versions(current: u32, versions: &[u32]) -> (r: Vec<u32>)
    ensures
        r@ == versions@.filter(|v: u32| v > current),
{
    let ghost pred = |v: u32| v > current;
    let mut r: Vec<u32> = Vec::new();
    let mut i: usize = 0;
    while i < versions.len()
        invariant
            i <= versions@.len(),
            pred == (|v: u32| v > current),
            r@ == versions@.take(i as int).filter(pred),
        decreases versions@.len() - i,
    {
        proof {
            assert(versions@.take(i + 1) =~= versions@.take(i as int).push(versions@[i as int]));
            versions@.take(i as int).lemma_filter_push(versions@[i as int], pred);
        }
        if versions[i] > current {
            r.push(versions[i]);
        }
        i = i + 1;
    }
    assert(versions@.take(versions@.len() as int) =~= versions@);
    r
}

/// Version order is antisymmetric: swapping the arguments reverses it.
pub proof fn law_version_order_antisymmetric(a: Seq<char>, b: Seq<char>)
    ensures
        version_order(a, b) == Ordering::Less <==> version_order(b, a) == Ordering::Greater,
        version_order(a, b) == Ordering::Equal <==> version_order(b, a) == Ordering::Equal,
{
    crate::models::filter::lemma_lex_order(a, b);
}

} // verus!
