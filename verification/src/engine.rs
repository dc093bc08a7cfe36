//! The template engine as the verified code sees it.
//!
//! Rendering is done by Tera. This module declares the engine's render
//! context, names what a context holds, and states of each call into the
//! engine what the rest of the crate relies on. Those statements are
//! taken from the engine's source and are believed, not proved.
//!
//! Only the template of the error page is rendered from here. The
//! templates of a compiled set are rendered by the caller: what they hold
//! is not known here, and the engine does not return on every template.

use crate::error::ERROR_TEMPLATE;
use crate::team::{team_views, Model, TeamView};
use vstd::prelude::*;

verus! {

/// Tera's render context, a map from keys to JSON values.
#[verifier::external_type_specification]
#[verifier::external_body]
pub struct ExContext(tera::Context);

/// A value bound to a key of a render context.
pub enum Entry {
    /// A JSON string.
    Text(Seq<char>),
    /// A JSON array with one object per team, each with the fields
    /// `number` and `name`.
    Teams(Seq<TeamView>),
    /// Any other JSON value, by its JSON text.
    Other(Seq<char>),
}

/// The bindings of a context that binds nothing.
pub open spec fn no_entries() -> Map<Seq<char>, Entry> {
    Map::empty()
}

/// The bindings that a render context holds.
pub uninterp spec fn context_entries(ctx: tera::Context) -> Map<Seq<char>, Entry>;

/// What `Tera::one_off` returns for the template of the error page: the
/// rendered text, or `None` where the engine reports an error.
pub uninterp spec fn one_off_output(
    template: Seq<char>,
    entries: Map<Seq<char>, Entry>,
    autoescape: bool,
) -> Option<Seq<char>>;

/// `Context::new`: a context without bindings.
pub assume_specification[ tera::Context::new ]() -> (fresh: tera::Context)
    ensures
        context_entries(fresh) == no_entries(),
;

/// `Context::insert` with a string value: binds `key` to that string and
/// replaces what `key` was bound to; the other bindings stay.
#[verifier::external_body]
pub(crate) fn insert_text(ctx: &mut tera::Context, key: &str, text: &str)
    ensures
        context_entries(*final(ctx)) == context_entries(*old(ctx)).insert(key@, Entry::Text(text@)),
{
    ctx.insert(key, text);
}

/// `Context::insert` with a list of teams: binds `key` to an array that
/// holds, in order, one object per team with its `number` and its `name`.
#[verifier::external_body]
pub(crate) fn insert_teams(ctx: &mut tera::Context, key: &str, teams: &Vec<Model>)
    ensures
        context_entries(*final(ctx)) == context_entries(*old(ctx)).insert(
            key@,
            Entry::Teams(team_views(teams@)),
        ),
{
    let mut rows: Vec<tera::Map<String, tera::Value>> = Vec::new();
    for team in teams {
        let mut row = tera::Map::new();
        row.insert("number".to_string(), tera::Value::from(team.number));
        row.insert("name".to_string(), tera::Value::from(team.name.as_str()));
        rows.push(row);
    }
    ctx.insert(key, &rows);
}

/// `Tera::one_off`: parses `template` with a fresh engine and renders it
/// against `ctx`; `None` stands for an error of the engine. Only the
/// template of the error page is handed over. It prints two bindings and
/// holds no call and no arithmetic, so the engine returns on every
/// context, reaches neither clock, random numbers nor environment, and
/// the outcome is a function of the three arguments.
#[verifier::external_body]
pub(crate) fn one_off(template: &str, ctx: &tera::Context, autoescape: bool) -> (out: Option<
    String,
>)
    requires
        template@ == ERROR_TEMPLATE@,
    ensures
        out matches Some(text) ==> one_off_output(template@, context_entries(*ctx), autoescape)
            == Some(text@),
        out is None ==> one_off_output(template@, context_entries(*ctx), autoescape) is None,
{
    tera::Tera::one_off(template, ctx, autoescape).ok()
}

} // verus!
