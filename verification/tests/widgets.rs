use regtags::service_switcher::ServiceSwitcher;
use regtags::tag_list::TagLine;
use regtags::tag_list::TagList;
use regtags::tags::ImageDetails;
use regtags::tags::Images;
use regtags::tags::Tags;
use regtags::ui::Key;

fn two_tag_page() -> Tags {
    let a = Images {
        images: vec![ImageDetails {
            architecture: String::from("amd64"),
            os: String::from("linux"),
            size: 123,
        }],
        tag_name: String::from("latest"),
        last_updated: String::from("2020-01-01T00:00:00+00:00"),
    };
    let b = Images {
        images: vec![],
        tag_name: String::from("1.0"),
        last_updated: String::from("not a timestamp"),
    };
    Tags::new(vec![a, b], None, None)
}

#[test]
fn tag_navigation_stays_in_bounds() {
    let mut list = TagList::from_tags(two_tag_page());
    assert_eq!(list.selected, Some(0));
    list.handle_input(Key::Up);
    assert_eq!(list.selected, Some(0));
    list.handle_input(Key::Down);
    assert_eq!(list.selected, Some(1));
    list.handle_input(Key::Down);
    assert_eq!(list.selected, Some(1));
    list.handle_input(Key::Up);
    assert_eq!(list.selected, Some(0));
}

#[test]
fn selected_tag_name_is_returned() {
    let list = TagList::from_tags(two_tag_page());
    assert_eq!(list.get_selected().unwrap(), "latest");
}

#[test]
fn pagination_rows_wrap_the_tags() {
    let mut page = two_tag_page();
    page.next_page = Some(String::from("next-url"));
    page.prev_page = Some(String::from("prev-url"));
    let list = TagList::from_tags(page);
    assert_eq!(list.lines.len(), 4);
    assert!(matches!(&list.lines[0], TagLine::PrevPage(u) if u == "prev-url"));
    assert!(matches!(&list.lines[1], TagLine::Tag(img) if img.tag_name == "latest"));
    assert!(matches!(&list.lines[3], TagLine::NextPage(u) if u == "next-url"));
}

#[test]
fn details_show_the_architectures() {
    let list = TagList::from_tags(two_tag_page());
    let details = list.create_detail_widget();
    assert_eq!(details.lines, vec![String::from("amd64 linux 123")]);
}

#[test]
fn tags_display_name_and_age() {
    let list = TagList::from_tags(two_tag_page());
    // 2020-01-01T00:00:00+00:00 is 1577836800 seconds after the epoch.
    let now = 1577836800 + 24 * 3600;
    let shown = list.display_lines(now);
    assert_eq!(shown[0], "latest vor 1 Tag");
    // The second timestamp does not parse, so the bare name is shown.
    assert_eq!(shown[1], "1.0");
}

#[test]
fn selecting_a_placeholder_is_its_own_error() {
    let mut page = two_tag_page();
    page.prev_page = Some(String::from("prev-url"));
    let list = TagList::from_tags(page);
    // The first row is the backward placeholder and starts highlighted.
    assert!(matches!(
        list.get_selected(),
        Err(regtags::tags::Error::NextPageSelected)
    ));
    assert_eq!(list.selected_cursor().unwrap(), "prev-url");
}

#[test]
fn a_status_row_is_no_selection() {
    let list = TagList::with_status(String::from("Tags are empty"));
    assert!(matches!(
        list.get_selected(),
        Err(regtags::tags::Error::NoSelection)
    ));
    assert!(list.selected_cursor().is_none());
}

#[test]
fn status_rows_render_as_their_text() {
    let list = TagList::with_status(String::from("Tags are empty"));
    let shown = list.rendered_lines();
    assert_eq!(shown, vec![String::from("Tags are empty")]);
}

fn spec_lines() -> Vec<String> {
    vec![
        String::from("web:"),
        String::from("  image: nginx:1.0"),
        String::from("db:"),
        String::from("  image: mysql:5.7"),
    ]
}

#[test]
fn find_next_lands_on_the_image_line() {
    let mut sw = ServiceSwitcher::new(spec_lines());
    assert!(sw.find_next_match());
    assert_eq!(sw.selected, 1);
    assert_eq!(sw.extract_repo().unwrap(), "nginx:1.0");
    sw.change_current_line(String::from("nginx:latest"));
    assert_eq!(sw.lines[0], "web:");
    assert_eq!(sw.lines[1], "  image: nginx:latest");
    assert_eq!(sw.lines[2], "db:");
    assert_eq!(sw.lines[3], "  image: mysql:5.7");
}

#[test]
fn find_wraps_around_both_ways() {
    let mut sw = ServiceSwitcher::new(spec_lines());
    assert!(sw.find_previous_match());
    assert_eq!(sw.selected, 3);
    assert!(sw.find_next_match());
    assert_eq!(sw.selected, 1);
    assert!(sw.find_next_match());
    assert_eq!(sw.selected, 3);
}

#[test]
fn no_image_line_leaves_selection_unchanged() {
    let mut sw = ServiceSwitcher::new(vec![String::from("web:"), String::from("db:")]);
    assert!(!sw.find_next_match());
    assert_eq!(sw.selected, 0);
    assert!(!sw.find_previous_match());
    assert_eq!(sw.selected, 0);
    assert!(sw.extract_repo().is_err());
}
