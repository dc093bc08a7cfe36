//! The handlers: the landing page and the listing of one page of teams.
//!
//! A handler gets what the store or the file system gave and decides
//! what is rendered: which template, against which bindings. The caller
//! renders it with its compiled templates and hands the outcome to
//! `page_result`. The listing puts the rows it is given into the listing
//! order and keeps at most one page of them, whatever order the store
//! used.

use crate::engine::{context_entries, insert_teams, no_entries, Entry};
use crate::error::{
    failure_message, lemma_template_failures_keep_the_message, store_kind, store_text, Error,
    Failure, FailureKind,
};
use crate::order::{in_order, lemma_team_order_total, name_le, team_le, team_order};
use crate::response::{page_view, Response};
use crate::team::{team_views, Model, TeamView};
use vstd::prelude::*;
use vstd::seq_lib::{lemma_sorted_unique, to_multiset_build, to_multiset_insert};

verus! {

/// The page that is listed when the request names none: the first.
pub const DEFAULT_PAGE: usize = 1;

/// The number of teams on a page when the request names none.
pub const DEFAULT_PAGE_SIZE: usize = 5;

/// The key under which the teams are bound for the listing template.
pub const TEAMS_KEY: &'static str = "teams";

/// The template of the landing page.
pub const INDEX_TEMPLATE: &'static str = "index.tera";

/// The template of the team listing.
pub const LIST_TEMPLATE: &'static str = "api/list_teams.tera";

/// Which page of the listing is asked for. Pages are counted from 1 and
/// hold at least one team.
#[derive(Clone, Copy, Debug)]
pub struct PageRequest {
    page: usize,
    size: usize,
}

impl PageRequest {
    #[verifier::type_invariant]
    spec fn counts_from_one(self) -> bool {
        self.page >= 1 && self.size >= 1
    }

    /// The number of the page, counted from 1.
    pub closed spec fn spec_page(&self) -> usize {
        self.page
    }

    /// The greatest number of teams on the page.
    pub closed spec fn spec_size(&self) -> usize {
        self.size
    }

    /// The request for page `page` with `size` teams a page. A parameter
    /// that is absent takes its default, page 1 and 5 teams. There is no
    /// page 0 and no page without room for a team: for those the result
    /// is `None`.
    pub fn new(page: Option<usize>, size: Option<usize>) -> (request: Option<PageRequest>)
        ensures
            request is Some <==> page != Some(0usize) && size != Some(0usize),
            request matches Some(r) ==> r.spec_page() == page.unwrap_or(DEFAULT_PAGE)
                && r.spec_size() == size.unwrap_or(DEFAULT_PAGE_SIZE),
    {
        let page = match page {
            Some(page) => page,
            None => DEFAULT_PAGE,
        };
        let size = match size {
            Some(size) => size,
            None => DEFAULT_PAGE_SIZE,
        };
        if page >= 1 && size >= 1 {
            Some(PageRequest { page, size })
        } else {
            None
        }
    }

    /// The number of the page, counted from 1.
    #[verifier::when_used_as_spec(spec_page)]
    pub fn page(&self) -> (page: usize)
        ensures
            page == self.spec_page(),
            page >= 1,
    {
        proof {
            use_type_invariant(self);
        }
        self.page
    }

    /// The greatest number of teams on the page.
    #[verifier::when_used_as_spec(spec_size)]
    pub fn size(&self) -> (size: usize)
        ensures
            size == self.spec_size(),
            size >= 1,
    {
        proof {
            use_type_invariant(self);
        }
        self.size
    }

    /// The number of the page for a store that counts pages from 0.
    pub fn index(&self) -> (index: usize)
        ensures
            index == self.spec_page() - 1,
    {
        proof {
            use_type_invariant(self);
        }
        self.page - 1
    }
}

impl Default for PageRequest {
    /// The first page, with 5 teams a page.
    fn default() -> (request: PageRequest)
        ensures
            request.spec_page() == DEFAULT_PAGE,
            request.spec_size() == DEFAULT_PAGE_SIZE,
    {
        PageRequest { page: DEFAULT_PAGE, size: DEFAULT_PAGE_SIZE }
    }
}

/// The page that is listed for `rows`: the rows in listing order, and of
/// these the first `size` where there are more.
pub open spec fn arranged(rows: Seq<TeamView>, size: int) -> Seq<TeamView> {
    let sorted = rows.sort_by(team_order());
    if size < sorted.len() {
        sorted.subrange(0, size)
    } else {
        sorted
    }
}

/// The bindings that the listing template is rendered against: the key
/// `teams`, bound to the page that is listed for `rows`.
pub open spec fn listing_entries(rows: Seq<TeamView>, size: int) -> Map<Seq<char>, Entry> {
    no_entries().insert(TEAMS_KEY@, Entry::Teams(arranged(rows, size)))
}

/// Tells whether team `a` is listed before team `b` or is the same team.
pub fn listed_before(a: &Model, b: &Model) -> (le: bool)
    ensures
        le == team_le(a@, b@),
{
    if a.name == b.name {
        a.number <= b.number
    } else {
        name_le(a.name.as_str(), b.name.as_str())
    }
}

/// Where `row` goes in `page`: behind the rows that are listed before it
/// or equal it, in front of the others.
fn insertion_point(page: &Vec<Model>, row: &Model) -> (pos: usize)
    requires
        in_order(team_views(page@)),
    ensures
        pos <= page@.len(),
        forall|i: int| 0 <= i < pos ==> team_le(#[trigger] page@[i]@, row@),
        forall|i: int| pos <= i < page@.len() ==> team_le(row@, #[trigger] page@[i]@),
{
    let mut pos: usize = 0;
    while pos < page.len() && listed_before(&page[pos], row)
        invariant
            pos <= page@.len(),
            forall|i: int| 0 <= i < pos ==> team_le(#[trigger] page@[i]@, row@),
        decreases page@.len() - pos,
    {
        pos = pos + 1;
    }
    proof {
        lemma_team_order_total();
        let order = team_order();
        let views = team_views(page@);
        assert forall|i: int| pos <= i < page@.len() implies team_le(row@, #[trigger] page@[i]@) by {
            assert(order(views[pos as int], row@) || order(row@, views[pos as int]));
            if pos < i {
                assert(order(views[pos as int], views[i]));
                assert(order(row@, views[i]));
            }
        }
    }
    pos
}

/// Puts `rows` into listing order and keeps at most `size` of them.
pub fn arrange(rows: Vec<Model>, size: usize) -> (page: Vec<Model>)
    ensures
        team_views(page@) == arranged(team_views(rows@), size as int),
{
    let ghost all = team_views(rows@);
    let mut rest = rows;
    let mut page: Vec<Model> = Vec::new();
    assert(team_views(page@).to_multiset().add(all.to_multiset()) =~= all.to_multiset()) by {
        assert(team_views(page@) =~= Seq::<TeamView>::empty());
        Seq::<TeamView>::empty().to_multiset_ensures();
    }
    while rest.len() > 0
        invariant
            in_order(team_views(page@)),
            team_views(page@).to_multiset().add(team_views(rest@).to_multiset())
                == all.to_multiset(),
        decreases rest@.len(),
    {
        let ghost before_rest = team_views(rest@);
        let ghost before_page = team_views(page@);
        let row = rest.pop().unwrap();
        let pos = insertion_point(&page, &row);
        page.insert(pos, row);
        proof {
            let after_rest = team_views(rest@);
            let after_page = team_views(page@);
            assert(before_rest =~= after_rest.push(row@));
            assert(after_page =~= before_page.insert(pos as int, row@));
            to_multiset_build(after_rest, row@);
            to_multiset_insert(before_page, pos as int, row@);
            assert(after_page.to_multiset().add(after_rest.to_multiset()) =~= all.to_multiset());
            assert forall|i: int, j: int| 0 <= i < j < after_page.len() implies team_order()(
                after_page[i],
                after_page[j],
            ) by {
                lemma_team_order_total();
                if j < pos {
                    assert(team_order()(before_page[i], before_page[j]));
                } else if j == pos {
                    assert(before_page[i] == page@[i]@);
                } else if i < pos {
                    assert(team_order()(before_page[i], before_page[j - 1]));
                } else if i == pos {
                    assert(before_page[j - 1] == page@[j]@);
                } else {
                    assert(team_order()(before_page[i - 1], before_page[j - 1]));
                }
            }
        }
    }
    proof {
        let sorted = team_views(page@);
        assert(team_views(rest@) =~= Seq::<TeamView>::empty());
        Seq::<TeamView>::empty().to_multiset_ensures();
        assert(sorted.to_multiset() =~= all.to_multiset());
        lemma_team_order_total();
        all.lemma_sort_by_ensures(team_order());
        lemma_sorted_unique(sorted, all.sort_by(team_order()), team_order());
    }
    page.truncate(size);
    assert(team_views(page@) =~= arranged(all, size as int));
    page
}

/// A listing holds as many rows as it was given, up to the size of the
/// page; they are in listing order, and each of them is one of the rows
/// given. Where the rows fit on the page, the listing holds every one of
/// them as often as it was given.
pub proof fn lemma_listing_holds_one_page(rows: Seq<TeamView>, size: int)
    requires
        0 <= size,
    ensures
        arranged(rows, size).len() == if rows.len() <= size {
            rows.len() as int
        } else {
            size
        },
        in_order(arranged(rows, size)),
        forall|i: int| 0 <= i < arranged(rows, size).len() ==> rows.contains(arranged(rows, size)[i]),
        rows.len() <= size ==> arranged(rows, size).to_multiset() == rows.to_multiset(),
{
    let order = team_order();
    let sorted = rows.sort_by(order);
    let page = arranged(rows, size);
    lemma_team_order_total();
    rows.lemma_sort_by_ensures(order);
    rows.to_multiset_ensures();
    sorted.to_multiset_ensures();
    assert forall|i: int, j: int| 0 <= i < j < page.len() implies order(page[i], page[j]) by {
        assert(order(sorted[i], sorted[j]));
    }
    assert forall|i: int| 0 <= i < page.len() implies rows.contains(page[i]) by {
        assert(sorted.contains(sorted[i]));
    }
}

/// A listing does not depend on the order in which the store hands out
/// the rows: the same rows, in any order, give the same listing.
pub proof fn lemma_listing_ignores_given_order(first: Seq<TeamView>, second: Seq<TeamView>, size: int)
    requires
        first.to_multiset() == second.to_multiset(),
    ensures
        arranged(first, size) == arranged(second, size),
{
    let order = team_order();
    lemma_team_order_total();
    first.lemma_sort_by_ensures(order);
    second.lemma_sort_by_ensures(order);
    lemma_sorted_unique(first.sort_by(order), second.sort_by(order), order);
}

/// Rows that are in listing order and fit on the page are listed as they
/// are.
pub proof fn lemma_listing_keeps_an_ordered_page(rows: Seq<TeamView>, size: int)
    requires
        in_order(rows),
        rows.len() <= size,
    ensures
        arranged(rows, size) == rows,
{
    let order = team_order();
    lemma_team_order_total();
    rows.lemma_sort_by_ensures(order);
    lemma_sorted_unique(rows.sort_by(order), rows, order);
}

/// The context that the listing template is rendered against: the key
/// `teams`, bound to the page that is listed for `rows`.
pub fn listing_context(rows: Vec<Model>, request: &PageRequest) -> (ctx: tera::Context)
    ensures
        context_entries(ctx) == listing_entries(team_views(rows@), request.spec_size() as int),
{
    let page = arrange(rows, request.size());
    let mut ctx = tera::Context::new();
    insert_teams(&mut ctx, TEAMS_KEY, &page);
    ctx
}

/// What a handler wants rendered: a template of the compiled set, by its
/// name, and the context to render it against.
#[derive(Debug)]
pub struct Rendering {
    pub template: &'static str,
    pub context: tera::Context,
}

/// What is to be rendered, as a mathematical value.
pub struct RenderingView {
    pub template: Seq<char>,
    pub entries: Map<Seq<char>, Entry>,
}

impl View for Rendering {
    type V = RenderingView;

    open spec fn view(&self) -> RenderingView {
        RenderingView { template: self.template@, entries: context_entries(self.context) }
    }
}

/// What the landing page is rendered from: the index template and a
/// context without bindings.
pub open spec fn landing_page() -> RenderingView {
    RenderingView { template: INDEX_TEMPLATE@, entries: no_entries() }
}

/// What the listing of `rows` is rendered from: the listing template and
/// the key `teams`, bound to the page that is listed for `rows`.
pub open spec fn listing_page(rows: Seq<TeamView>, size: int) -> RenderingView {
    RenderingView { template: LIST_TEMPLATE@, entries: listing_entries(rows, size) }
}

/// What a handler answers once the engine has rendered its template, or
/// has failed to: the rendered page under status 200, or the error that
/// shows the engine's message as a failure to render.
pub fn page_result(rendered: Result<String, String>) -> (result: Result<Response, Error>)
    ensures
        rendered matches Ok(body) ==> result matches Ok(response) && response@ == page_view(body@),
        rendered matches Err(text) ==> result matches Err(error) && error.spec_message() == text@
            && error.spec_code() == 500,
{
    match rendered {
        Ok(body) => Ok(Response::page(body)),
        Err(detail) => {
            proof {
                lemma_template_failures_keep_the_message(FailureKind::TemplateRender, detail@);
            }
            Err(Error::from(Failure { kind: FailureKind::TemplateRender, detail }))
        },
    }
}

/// The landing page: the index template, to be rendered against a
/// context without bindings. `reloaded` is the outcome of recompiling the
/// templates before the request, `Ok` where they were not recompiled; a
/// failure to recompile is answered like a failure to render, and
/// nothing is then to be rendered.
pub fn root(reloaded: Result<(), String>) -> (result: Result<Rendering, Error>)
    ensures
        reloaded matches Err(text) ==> (result matches Err(error) && error.spec_message() == text@
            && error.spec_code() == 500),
        reloaded is Ok ==> (result matches Ok(rendering) && rendering@ == landing_page()),
{
    match reloaded {
        Err(detail) => {
            proof {
                lemma_template_failures_keep_the_message(FailureKind::TemplateCompile, detail@);
            }
            Err(Error::from(Failure { kind: FailureKind::TemplateCompile, detail }))
        },
        Ok(_) => Ok(Rendering { template: INDEX_TEMPLATE, context: tera::Context::new() }),
    }
}

/// The listing of one page of teams. `fetched` is what the store gave
/// for the page: the rows, in any order, or its error. An error of the
/// store is handed on as the error that shows it, and nothing is to be
/// rendered; rows are put into listing order, cut to the size of the
/// page, and bound for the listing template.
pub fn list_teams(fetched: Result<Vec<Model>, sea_orm::DbErr>, request: &PageRequest) -> (result:
    Result<Rendering, Error>)
    ensures
        fetched matches Err(error) ==> (result matches Err(shown) && shown.spec_code() == 500
            && shown.spec_message() == failure_message(store_kind(error), store_text(error))),
        fetched matches Ok(rows) ==> (result matches Ok(rendering) && rendering@ == listing_page(
            team_views(rows@),
            request.spec_size() as int,
        )),
{
    match fetched {
        Err(error) => Err(Error::from(error)),
        Ok(rows) => Ok(Rendering { template: LIST_TEMPLATE, context: listing_context(rows, request) }),
    }
}

} // verus!
