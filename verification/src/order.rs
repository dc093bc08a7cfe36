//! The order in which teams are listed.
//!
//! Teams are listed by name, names compared character by character by
//! code point; teams of one name are listed by number. No two distinct
//! teams are equal in this order, so a listing has exactly one order.

use crate::team::TeamView;
use vstd::prelude::*;
use vstd::relations::{sorted_by, total_ordering};
use vstd::string::StrSliceExecFns;

verus! {

/// Whether `a` comes before `b` or equals it, comparing code points from
/// the front; a proper prefix comes first.
pub open spec fn text_le(a: Seq<char>, b: Seq<char>) -> bool
    decreases a.len(),
{
    if a.len() == 0 {
        true
    } else if b.len() == 0 {
        false
    } else if a[0] == b[0] {
        text_le(a.drop_first(), b.drop_first())
    } else {
        (a[0] as int) < (b[0] as int)
    }
}

/// Whether team `a` is listed before team `b` or is the same team.
pub open spec fn team_le(a: TeamView, b: TeamView) -> bool {
    if a.name == b.name {
        a.number <= b.number
    } else {
        text_le(a.name, b.name)
    }
}

/// The listing order as a relation.
pub open spec fn team_order() -> spec_fn(TeamView, TeamView) -> bool {
    |a: TeamView, b: TeamView| team_le(a, b)
}

/// Whether `rows` are in listing order.
pub open spec fn in_order(rows: Seq<TeamView>) -> bool {
    sorted_by(rows, team_order())
}

/// Every text comes before or equals itself.
pub proof fn lemma_text_le_reflexive(a: Seq<char>)
    ensures
        text_le(a, a),
    decreases a.len(),
{
    if a.len() > 0 {
        lemma_text_le_reflexive(a.drop_first());
    }
}

/// Of two texts one comes before or equals the other.
pub proof fn lemma_text_le_connected(a: Seq<char>, b: Seq<char>)
    ensures
        text_le(a, b) || text_le(b, a),
    decreases a.len(),
{
    if a.len() > 0 && b.len() > 0 && a[0] == b[0] {
        lemma_text_le_connected(a.drop_first(), b.drop_first());
    }
}

/// Two texts that each come before or equal the other are the same text.
pub proof fn lemma_text_le_antisymmetric(a: Seq<char>, b: Seq<char>)
    requires
        text_le(a, b),
        text_le(b, a),
    ensures
        a == b,
    decreases a.len(),
{
    if a.len() == 0 || b.len() == 0 {
        assert(a =~= b);
    } else {
        lemma_text_le_antisymmetric(a.drop_first(), b.drop_first());
        assert(a =~= seq![a[0]] + a.drop_first());
        assert(b =~= seq![b[0]] + b.drop_first());
    }
}

/// The order of texts is transitive.
pub proof fn lemma_text_le_transitive(a: Seq<char>, b: Seq<char>, c: Seq<char>)
    requires
        text_le(a, b),
        text_le(b, c),
    ensures
        text_le(a, c),
    decreases a.len(),
{
    if a.len() > 0 && b.len() > 0 && c.len() > 0 && a[0] == b[0] && b[0] == c[0] {
        lemma_text_le_transitive(a.drop_first(), b.drop_first(), c.drop_first());
    }
}

/// The listing order is a total order: reflexive, antisymmetric,
/// transitive, and any two teams are comparable.
pub proof fn lemma_team_order_total()
    ensures
        total_ordering(team_order()),
{
    let order = team_order();
    assert forall|x: TeamView| #[trigger] order(x, x) by {}
    assert forall|x: TeamView, y: TeamView| #[trigger] order(x, y) && #[trigger] order(y, x) implies x
        == y by {
        if x.name != y.name {
            lemma_text_le_antisymmetric(x.name, y.name);
        }
    }
    assert forall|x: TeamView, y: TeamView, z: TeamView| #[trigger]
        order(x, y) && #[trigger] order(y, z) implies order(x, z) by {
        if x.name == y.name {
        } else if y.name == z.name {
        } else {
            lemma_text_le_transitive(x.name, y.name, z.name);
            if x.name == z.name {
                lemma_text_le_antisymmetric(x.name, y.name);
            }
        }
    }
    assert forall|x: TeamView, y: TeamView| #[trigger] order(x, y) || #[trigger] order(y, x) by {
        lemma_text_le_connected(x.name, y.name);
    }
}

/// Tells whether the text `a` comes before the text `b` or equals it.
pub fn name_le(a: &str, b: &str) -> (le: bool)
    ensures
        le == text_le(a@, b@),
{
    let a_len = a.unicode_len();
    let b_len = b.unicode_len();
    let mut at: usize = 0;
    assert(a@.skip(0) =~= a@ && b@.skip(0) =~= b@);
    while at < a_len && at < b_len
        invariant
            at <= a_len,
            at <= b_len,
            a_len == a@.len(),
            b_len == b@.len(),
            text_le(a@, b@) == text_le(a@.skip(at as int), b@.skip(at as int)),
        decreases a_len - at,
    {
        let x = a.get_char(at);
        let y = b.get_char(at);
        assert(a@.skip(at as int)[0] == x && b@.skip(at as int)[0] == y);
        if x != y {
            return (x as u32) < (y as u32);
        }
        assert(a@.skip(at as int).drop_first() =~= a@.skip(at + 1));
        assert(b@.skip(at as int).drop_first() =~= b@.skip(at + 1));
        at = at + 1;
    }
    at == a_len
}

} // verus!

