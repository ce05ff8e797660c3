use regtags::tag_list::TagLine;
use regtags::tags::ImageDetails;
use regtags::tags::Images;
use regtags::tags::Tags;
use regtags::ui::create_ui;
use regtags::ui::Action;
use regtags::ui::Key;
use regtags::ui::State;
use regtags::ui::Ui;

fn service_lines() -> Vec<String> {
    vec![
        String::from("web:"),
        String::from("  image: nginx:1.0"),
        String::from("db:"),
        String::from("  image: mysql:5.7"),
    ]
}

fn fresh_ui() -> Ui {
    create_ui(Some(service_lines()), None).unwrap()
}

#[test]
fn state_cycle_has_length_three() {
    let s = State::EditRepo;
    assert_eq!(s.next().next().next(), s);
    let s = State::SelectTag;
    assert_eq!(s.next().next().next(), s);
    let s = State::SelectService;
    assert_eq!(s.next().next().next(), s);
}

#[test]
fn missing_service_file_yields_no_ui() {
    assert!(create_ui(None, None).is_none());
}

#[test]
fn cycling_updates_the_hint() {
    let mut ui = fresh_ui();
    assert_eq!(ui.state, State::SelectService);
    let act = ui.dispatch(Key::Cycle);
    assert!(matches!(act, Action::Continue));
    assert_eq!(ui.state, State::EditRepo);
    assert_eq!(ui.info.text, "Edit repository");
}

#[test]
fn confirming_edit_repo_fetches_the_normalized_name() {
    let mut ui = fresh_ui();
    ui.dispatch(Key::Cycle); // SelectService -> EditRepo
    for c in "mysql".chars() {
        ui.dispatch(Key::Char(c));
    }
    assert_eq!(ui.repo.get(), "mysql");
    let act = ui.dispatch(Key::Confirm);
    match act {
        Action::Fetch(url) => assert_eq!(
            url,
            "https://hub.docker.com/v2/repositories/library/mysql/tags"
        ),
        _ => panic!("expected a fetch"),
    }
    assert_eq!(ui.repo.get(), "library/mysql");
    // Every prior row is gone, replaced by the placeholder.
    assert_eq!(ui.tags.lines.len(), 1);
    assert!(matches!(&ui.tags.lines[0], TagLine::Status(m) if m == "Fetching Tags"));

    // A finished fetch again replaces all rows, leaving nothing stale.
    let page = Tags::new(
        vec![Images {
            images: vec![],
            tag_name: String::from("8.0"),
            last_updated: String::from("2020-01-01T00:00:00+00:00"),
        }],
        None,
        None,
    );
    ui.fetch_finished(Ok(page));
    assert_eq!(ui.tags.lines.len(), 1);
    assert!(matches!(&ui.tags.lines[0], TagLine::Tag(img) if img.tag_name == "8.0"));
}

#[test]
fn invalid_repo_name_routes_to_info() {
    let mut ui = fresh_ui();
    ui.dispatch(Key::Cycle);
    ui.dispatch(Key::Char('a'));
    ui.dispatch(Key::Char('\u{e4}'));
    let act = ui.dispatch(Key::Confirm);
    assert!(matches!(act, Action::Continue));
    assert_eq!(ui.info.text, "Invalid Character: \u{e4}");
    assert_eq!(ui.repo.get(), "a\u{e4}");
}

#[test]
fn backspace_edits_the_buffer() {
    let mut ui = fresh_ui();
    ui.dispatch(Key::Cycle);
    ui.dispatch(Key::Char('a'));
    ui.dispatch(Key::Char('b'));
    ui.dispatch(Key::Backspace);
    assert_eq!(ui.repo.get(), "a");
    assert_eq!(ui.info.text, "Editing Repository");
    ui.dispatch(Key::Backspace);
    ui.dispatch(Key::Backspace);
    assert_eq!(ui.repo.get(), "");
}

#[test]
fn failed_fetch_shows_one_error_row() {
    let mut ui = fresh_ui();
    ui.fetch_finished(Err(regtags::tags::Error::Fetching(String::from("timed out"))));
    assert_eq!(ui.tags.lines.len(), 1);
    assert!(matches!(&ui.tags.lines[0], TagLine::Status(m) if m == "Fetching error: timed out"));
    assert_eq!(ui.tags.selected, None);
}

#[test]
fn save_failure_keeps_lines_and_reports() {
    let mut ui = fresh_ui();
    let before = ui.services.lines.clone();
    let act = ui.dispatch(Key::Save);
    assert!(matches!(act, Action::Save));
    ui.save_finished(Err(String::from("disk full")));
    assert_eq!(ui.services.lines, before);
    assert_eq!(ui.info.text, "Saving error: disk full");
    ui.save_finished(Ok(()));
    assert_eq!(ui.services.lines, before);
    assert_eq!(ui.info.text, "Saved compose file");
}

#[test]
fn confirming_a_tag_splices_it_into_the_line() {
    let mut ui = fresh_ui();
    ui.dispatch(Key::Down); // move to the nginx line and request its fetch
    assert_eq!(ui.services.selected, 1);
    let page = Tags::new(
        vec![Images {
            images: vec![],
            tag_name: String::from("latest"),
            last_updated: String::from("2020-01-01T00:00:00+00:00"),
        }],
        None,
        None,
    );
    ui.fetch_finished(Ok(page));
    ui.dispatch(Key::Cycle); // SelectService -> EditRepo
    ui.dispatch(Key::Cycle); // EditRepo -> SelectTag
    let act = ui.dispatch(Key::Confirm);
    assert!(matches!(act, Action::Continue));
    assert_eq!(ui.services.lines[1], "  image: nginx:1.0:latest");
}

#[test]
fn selecting_a_service_line_requests_its_fetch() {
    let mut ui = fresh_ui();
    let act = ui.dispatch(Key::Down);
    assert_eq!(ui.services.selected, 1);
    assert_eq!(ui.repo.get(), "library/nginx:1.0");
    match act {
        Action::Fetch(url) => assert_eq!(
            url,
            "https://hub.docker.com/v2/repositories/library/nginx:1.0/tags"
        ),
        _ => panic!("expected a fetch"),
    }
    assert!(matches!(&ui.tags.lines[0], TagLine::Status(m) if m == "Fetching Tags"));
}

#[test]
fn selecting_a_pagination_row_fetches_its_cursor() {
    let mut ui = fresh_ui();
    let page = Tags::new(
        vec![Images {
            images: vec![ImageDetails {
                architecture: String::from("arm64"),
                os: String::from("linux"),
                size: 7,
            }],
            tag_name: String::from("latest"),
            last_updated: String::from("2020-01-01T00:00:00+00:00"),
        }],
        Some(String::from("next-url")),
        None,
    );
    ui.fetch_finished(Ok(page));
    ui.dispatch(Key::Cycle); // SelectService -> EditRepo
    ui.dispatch(Key::Cycle); // EditRepo -> SelectTag
    ui.dispatch(Key::Down); // from the tag row onto the pagination row
    assert_eq!(ui.tags.selected, Some(1));
    let act = ui.dispatch(Key::Confirm);
    match act {
        Action::Fetch(url) => assert_eq!(url, "next-url"),
        _ => panic!("expected a fetch"),
    }
    assert!(matches!(&ui.tags.lines[0], TagLine::Status(m) if m == "Fetching Tags"));
}

#[test]
fn moving_in_the_tag_list_updates_the_details() {
    let mut ui = fresh_ui();
    let page = Tags::new(
        vec![
            Images {
                images: vec![ImageDetails {
                    architecture: String::from("amd64"),
                    os: String::from("linux"),
                    size: 123,
                }],
                tag_name: String::from("latest"),
                last_updated: String::from("2020-01-01T00:00:00+00:00"),
            },
            Images {
                images: vec![ImageDetails {
                    architecture: String::from("arm64"),
                    os: String::from("linux"),
                    size: 9,
                }],
                tag_name: String::from("1.0"),
                last_updated: String::from("2020-01-01T00:00:00+00:00"),
            },
        ],
        None,
        None,
    );
    ui.fetch_finished(Ok(page));
    ui.dispatch(Key::Cycle);
    ui.dispatch(Key::Cycle); // now SelectTag
    ui.dispatch(Key::Down);
    assert_eq!(ui.tags.selected, Some(1));
    assert_eq!(ui.details.lines, vec![String::from("arm64 linux 9")]);
    ui.dispatch(Key::Up);
    assert_eq!(ui.details.lines, vec![String::from("amd64 linux 123")]);
}

#[test]
fn service_move_without_a_match_reports_it() {
    let mut ui = create_ui(
        Some(vec![String::from("web:"), String::from("db:")]),
        None,
    )
    .unwrap();
    let act = ui.dispatch(Key::Down);
    assert!(matches!(act, Action::Continue));
    assert_eq!(ui.services.selected, 0);
    assert_eq!(ui.info.text, "no image found");
}

#[test]
fn quit_and_other_keys_change_nothing() {
    let mut ui = fresh_ui();
    let act = ui.dispatch(Key::Quit);
    assert!(matches!(act, Action::Quit));
    assert_eq!(ui.state, State::SelectService);
    let act = ui.dispatch(Key::Other);
    assert!(matches!(act, Action::Continue));
    // Characters are ignored outside the repository editor.
    ui.dispatch(Key::Char('x'));
    assert_eq!(ui.repo.get(), "");
}
