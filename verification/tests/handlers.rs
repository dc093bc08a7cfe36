use finch::api::{page_result, PageRequest, Rendering};
use finch::error::{Error, Failure, FailureKind, ERROR_TEMPLATE};
use finch::response::{ContentKind, Response};
use finch::team::Model;
use finch::{list_teams, root};
use sea_orm::DbErr;
use tera::{Context, Tera};

const LISTING: &str = "<ul>{% for team in teams %}<li>{{ team.number }}: {{ team.name }}</li>{% endfor %}</ul>";

fn engine() -> Tera {
    let mut engine = Tera::default();
    engine.add_raw_template("index.tera", "<h1>Finch</h1>").unwrap();
    engine.add_raw_template("api/list_teams.tera", LISTING).unwrap();
    engine
}

fn seeded() -> Vec<Model> {
    vec![
        Model::new(1, "Falcons".to_string()),
        Model::new(2, "Eagles".to_string()),
        Model::new(3, "Hawks".to_string()),
    ]
}

fn render(engine: &Tera, rendering: Result<Rendering, Error>) -> Result<Response, Error> {
    let rendering = rendering?;
    let rendered = engine.render(rendering.template, &rendering.context);
    page_result(rendered.map_err(|e| e.to_string()))
}

fn html(body: &str) -> Response {
    Response { status: 200, kind: ContentKind::Html, body: body.to_string() }
}

#[test]
fn root_renders_the_landing_page() {
    let response = render(&engine(), root(Ok(()))).unwrap();
    assert_eq!(response, html("<h1>Finch</h1>"));
    assert!(!response.body.is_empty());
}

#[test]
fn root_without_a_landing_template_is_an_internal_error() {
    let error = render(&Tera::default(), root(Ok(()))).unwrap_err();
    assert_eq!(error.code(), 500);
    assert_eq!(error.message(), "Template 'index.tera' not found");
    let response = error.into_response().unwrap();
    assert_eq!(response.status, 500);
    assert_eq!(response.kind, ContentKind::Html);
    assert!(response.body.contains("<pre>500</pre>"));
    assert!(response.body.contains("Template &#x27;index.tera&#x27; not found"));
}

#[test]
fn root_with_a_landing_template_that_cannot_be_rendered_is_an_internal_error() {
    let mut broken = Tera::default();
    broken.add_raw_template("index.tera", "{{ nothing_bound }}").unwrap();
    let error = render(&broken, root(Ok(()))).unwrap_err();
    assert_eq!(error.code(), 500);
    assert_eq!(error.message(), "Failed to render 'index.tera'");
}

#[test]
fn root_after_a_failed_reload_is_an_internal_error_and_renders_nothing() {
    let error = root(Err("Failed to parse 'index.tera'".to_string())).unwrap_err();
    assert_eq!(error.code(), 500);
    assert_eq!(error.message(), "Failed to parse 'index.tera'");
}

#[test]
fn listing_three_teams_with_page_size_five_lists_all_three_by_name() {
    let response = render(&engine(), list_teams(Ok(seeded()), &PageRequest::default())).unwrap();
    assert_eq!(
        response,
        html("<ul><li>2: Eagles</li><li>1: Falcons</li><li>3: Hawks</li></ul>")
    );
}

#[test]
fn listing_is_the_same_when_asked_again() {
    let first = render(&engine(), list_teams(Ok(seeded()), &PageRequest::default())).unwrap();
    let second = render(&engine(), list_teams(Ok(seeded()), &PageRequest::default())).unwrap();
    assert_eq!(first, second);
    let mut reversed = seeded();
    reversed.reverse();
    let third = render(&engine(), list_teams(Ok(reversed), &PageRequest::default())).unwrap();
    assert_eq!(first, third);
}

#[test]
fn listing_more_teams_than_fit_lists_one_page() {
    let rows: Vec<Model> = (1..=9).rev().map(|n| Model::new(n, format!("Team {}", n))).collect();
    let response = render(&engine(), list_teams(Ok(rows), &PageRequest::default())).unwrap();
    assert_eq!(
        response.body,
        "<ul><li>1: Team 1</li><li>2: Team 2</li><li>3: Team 3</li><li>4: Team 4</li><li>5: Team 5</li></ul>"
    );
}

#[test]
fn listing_no_teams_renders_an_empty_list() {
    let response = render(&engine(), list_teams(Ok(Vec::new()), &PageRequest::default())).unwrap();
    assert_eq!(response, html("<ul></ul>"));
}

#[test]
fn listing_escapes_team_names() {
    let rows = vec![Model::new(4, "<Owls>".to_string())];
    let mut engine = Tera::default();
    engine.add_raw_template("api/list_teams.html", "unused").unwrap();
    engine.add_raw_template("api/list_teams.tera", "{% for team in teams %}{{ team.name | escape }}{% endfor %}").unwrap();
    let response = render(&engine, list_teams(Ok(rows), &PageRequest::default())).unwrap();
    assert_eq!(response.body, "&lt;Owls&gt;");
}

#[test]
fn every_store_error_during_the_listing_is_handed_to_the_error_mapper() {
    let detail = || "store gone".to_string();
    let errors = [
        (DbErr::Exec(detail()), "Execution error: "),
        (DbErr::Conn(detail()), "Connection error: "),
        (DbErr::Json(detail()), "JSON error: "),
        (DbErr::Query(detail()), "Query error: "),
        (DbErr::RecordNotFound(detail()), "Record not found error: "),
        (DbErr::Type(detail()), "Type error: "),
        (DbErr::Custom(detail()), "Custom error: "),
    ];
    for (error, prefix) in errors {
        let error = render(&engine(), list_teams(Err(error), &PageRequest::default())).unwrap_err();
        assert_eq!(error.code(), 500);
        assert_eq!(error.message(), format!("{}store gone", prefix));
        let response = error.into_response().unwrap();
        assert_eq!(response.status, 500);
        assert_eq!(response.kind, ContentKind::Html);
        assert!(response.body.contains(prefix));
        assert!(response.body.contains(&format!("<pre>{}store gone</pre>", prefix)));
    }
}

#[test]
fn a_store_error_is_shown_as_the_failure_of_its_kind() {
    let shown = Error::from(DbErr::RecordNotFound("team 7".to_string()));
    let failure = Failure { kind: FailureKind::StoreRecordNotFound, detail: "team 7".to_string() };
    let same = Error::from(failure);
    assert_eq!(shown.message(), same.message());
    assert_eq!(shown.code(), same.code());
    assert_eq!(shown.message(), "Record not found error: team 7");
    assert_eq!(shown.code(), 500);
}

#[test]
fn stopping_the_store_gives_500_with_a_connection_error() {
    let fetched = Err(DbErr::Conn("connection closed".to_string()));
    let error = render(&engine(), list_teams(fetched, &PageRequest::default())).unwrap_err();
    let response = error.into_response().unwrap();
    assert_eq!(response.status, 500);
    assert_eq!(response.kind, ContentKind::Html);
    assert!(response.body.contains("Connection error:"));
    assert_eq!(
        response.body,
        ERROR_TEMPLATE
            .replace("{{ code }}", "500")
            .replace("{{ message }}", "Connection error: connection closed")
    );
}

#[test]
fn listing_without_a_listing_template_is_an_internal_error() {
    let error = render(&Tera::default(), list_teams(Ok(seeded()), &PageRequest::default())).unwrap_err();
    assert_eq!(error.code(), 500);
    assert_eq!(error.message(), "Template 'api/list_teams.tera' not found");
}

#[test]
fn root_asks_for_the_index_template_without_bindings() {
    let rendering = root(Ok(())).unwrap();
    assert_eq!(rendering.template, "index.tera");
    assert_eq!(rendering.context, Context::new());
}

#[test]
fn listing_asks_for_the_listing_template_with_the_arranged_teams() {
    let rendering = list_teams(Ok(seeded()), &PageRequest::default()).unwrap();
    assert_eq!(rendering.template, "api/list_teams.tera");
    let mut expected = Context::new();
    expected.insert(
        "teams",
        &vec![
            tera::Value::from_iter([("number", tera::Value::from(2)), ("name", tera::Value::from("Eagles"))]),
            tera::Value::from_iter([("number", tera::Value::from(1)), ("name", tera::Value::from("Falcons"))]),
            tera::Value::from_iter([("number", tera::Value::from(3)), ("name", tera::Value::from("Hawks"))]),
        ],
    );
    assert_eq!(rendering.context, expected);
}

#[test]
fn a_store_error_asks_for_nothing_to_be_rendered() {
    let result = list_teams(Err(DbErr::Query("no such table".to_string())), &PageRequest::default());
    let error = result.unwrap_err();
    assert_eq!(error.message(), "Query error: no such table");
    assert_eq!(error.code(), 500);
}

#[test]
fn page_result_wraps_a_rendered_page_and_maps_a_failure() {
    assert_eq!(page_result(Ok("<p>hi</p>".to_string())).unwrap(), html("<p>hi</p>"));
    assert_eq!(page_result(Ok(String::new())).unwrap(), html(""));
    let error = page_result(Err("Failed to render 'x'".to_string())).unwrap_err();
    assert_eq!(error.message(), "Failed to render 'x'");
    assert_eq!(error.code(), 500);
}
