use finch::api::{arrange, listed_before, PageRequest, DEFAULT_PAGE, DEFAULT_PAGE_SIZE};
use finch::order::name_le;
use finch::team::Model;

fn team(number: i32, name: &str) -> Model {
    Model::new(number, name.to_string())
}

fn numbers(rows: &[Model]) -> Vec<i32> {
    rows.iter().map(|row| row.number).collect()
}

#[test]
fn names_are_ordered_by_code_points() {
    assert!(name_le("Eagles", "Falcons"));
    assert!(!name_le("Falcons", "Eagles"));
    assert!(name_le("Hawk", "Hawks"));
    assert!(!name_le("Hawks", "Hawk"));
    assert!(name_le("", "a"));
    assert!(!name_le("a", ""));
    assert!(name_le("Zebras", "ants"));
    assert!(name_le("z", "\u{e9}"));
}

#[test]
fn a_name_comes_before_or_equals_itself() {
    assert!(name_le("", ""));
    assert!(name_le("Falcons", "Falcons"));
}

#[test]
fn teams_of_one_name_are_ordered_by_number() {
    assert!(listed_before(&team(1, "Owls"), &team(2, "Owls")));
    assert!(!listed_before(&team(2, "Owls"), &team(1, "Owls")));
    assert!(listed_before(&team(2, "Owls"), &team(2, "Owls")));
    assert!(listed_before(&team(9, "Eagles"), &team(1, "Owls")));
    assert!(listed_before(&team(-3, "Owls"), &team(0, "Owls")));
}

#[test]
fn arrange_orders_the_rows_by_name() {
    let rows = vec![team(1, "Falcons"), team(2, "Eagles"), team(3, "Hawks")];
    let page = arrange(rows, 5);
    assert_eq!(page, vec![team(2, "Eagles"), team(1, "Falcons"), team(3, "Hawks")]);
}

#[test]
fn arrange_keeps_min_of_rows_and_size() {
    let rows: Vec<Model> = (0..8).map(|n| team(n, &format!("Team {}", 7 - n))).collect();
    assert_eq!(numbers(&arrange(rows.clone(), 5)), vec![7, 6, 5, 4, 3]);
    assert_eq!(arrange(rows.clone(), 8).len(), 8);
    assert_eq!(arrange(rows.clone(), 100).len(), 8);
    assert_eq!(arrange(rows.clone(), 1), vec![team(7, "Team 0")]);
    assert_eq!(arrange(rows, 0), Vec::<Model>::new());
}

#[test]
fn arrange_of_no_rows_is_empty() {
    assert_eq!(arrange(Vec::new(), 5), Vec::<Model>::new());
}

#[test]
fn arrange_gives_the_same_page_for_any_order_of_the_rows() {
    let a = vec![team(1, "Falcons"), team(2, "Eagles"), team(3, "Hawks"), team(4, "Eagles")];
    let b = vec![team(4, "Eagles"), team(3, "Hawks"), team(2, "Eagles"), team(1, "Falcons")];
    let c = vec![team(3, "Hawks"), team(1, "Falcons"), team(4, "Eagles"), team(2, "Eagles")];
    let expected = vec![team(2, "Eagles"), team(4, "Eagles"), team(1, "Falcons"), team(3, "Hawks")];
    assert_eq!(arrange(a.clone(), 5), expected);
    assert_eq!(arrange(b, 5), expected);
    assert_eq!(arrange(c, 5), expected);
    assert_eq!(arrange(a.clone(), 5), arrange(a, 5));
}

#[test]
fn arrange_leaves_an_ordered_page_as_it_is() {
    let rows = vec![team(2, "Eagles"), team(1, "Falcons"), team(3, "Hawks")];
    assert_eq!(arrange(rows.clone(), 3), rows);
}

#[test]
fn arrange_keeps_rows_that_are_given_twice() {
    let rows = vec![team(1, "Owls"), team(1, "Owls"), team(0, "Owls")];
    assert_eq!(arrange(rows, 5), vec![team(0, "Owls"), team(1, "Owls"), team(1, "Owls")]);
}

#[test]
fn a_request_without_parameters_is_the_first_page_of_five() {
    let request = PageRequest::new(None, None).unwrap();
    assert_eq!(request.page(), 1);
    assert_eq!(request.size(), 5);
    assert_eq!(request.index(), 0);
    assert_eq!(DEFAULT_PAGE, 1);
    assert_eq!(DEFAULT_PAGE_SIZE, 5);
    let default = PageRequest::default();
    assert_eq!((default.page(), default.size()), (1, 5));
}

#[test]
fn a_request_takes_the_parameters_that_are_given() {
    let request = PageRequest::new(Some(3), Some(20)).unwrap();
    assert_eq!((request.page(), request.size(), request.index()), (3, 20, 2));
    let request = PageRequest::new(Some(2), None).unwrap();
    assert_eq!((request.page(), request.size(), request.index()), (2, 5, 1));
    let request = PageRequest::new(None, Some(1)).unwrap();
    assert_eq!((request.page(), request.size(), request.index()), (1, 1, 0));
    let request = PageRequest::new(Some(usize::MAX), Some(usize::MAX)).unwrap();
    assert_eq!(request.index(), usize::MAX - 1);
}

#[test]
fn there_is_no_page_zero_and_no_empty_page() {
    assert!(PageRequest::new(Some(0), None).is_none());
    assert!(PageRequest::new(None, Some(0)).is_none());
    assert!(PageRequest::new(Some(0), Some(0)).is_none());
    assert!(PageRequest::new(Some(0), Some(5)).is_none());
}

#[test]
fn names_are_ordered_as_strings_are() {
    let samples = [
        "", "a", "A", "ab", "abc", "b", "Eagles", "Falcons", "Hawks", "hawks", "Team 10",
        "Team 2", "\u{e9}cole", "ecole", "\u{1f985}", "\u{ffff}", "z", "~",
    ];
    for a in samples {
        for b in samples {
            assert_eq!(name_le(a, b), a <= b, "{:?} and {:?}", a, b);
        }
    }
}
