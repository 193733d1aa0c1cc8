use slumber::collection::{Authentication, Method, Profile, ProfileId, Recipe, RecipeId, Template};
use slumber::http::models::{BuildOptions, RequestId, RequestSeed, ResponseRecord};
use slumber::view::profile_select::{
    ProfileDetail, ProfileDetailProps, ProfileEvent, ProfileListModal, ProfilePane, ProfileUpdate,
};
use slumber::view::recipe::{RecipeDisplay, RecipeFieldTable, Tab};
use slumber::view::response_view::{
    BodyEvent, BodyMenuAction, BodyText, BodyUpdate, Message, ResponseBodyView,
    ResponseBodyViewProps, ResponseHeadersView, ResponseHeadersViewProps,
};
use slumber::view::state::{Notification, StateCell};

fn profile(id: &str, name: Option<&str>) -> Profile {
    Profile {
        id: ProfileId::new(id),
        name: name.map(str::to_owned),
        data: vec![("host".to_owned(), Template::new(id))],
    }
}

fn profiles() -> Vec<Profile> {
    vec![profile("a", Some("First")), profile("b", None), profile("a", Some("Again"))]
}

#[test]
fn state_cell_keeps_value_for_same_key() {
    let mut cell: StateCell<u32, String> = StateCell::new();
    assert_eq!(cell.get(), None);
    assert_eq!(cell.get_key(), None);
    assert_eq!(cell.get_mut(), None);
    assert_eq!(cell.get_or_update(&1, || "one".to_owned()), "one");
    assert_eq!(cell.get_key(), Some(&1));
    assert_eq!(cell.get().map(String::as_str), Some("one"));
    // Same key: init is not called
    assert_eq!(cell.get_or_update(&1, || unreachable!()), "one");
    // Other key: the value is made anew
    assert_eq!(cell.get_or_update(&2, || "two".to_owned()), "two");
    assert_eq!(cell.get_key(), Some(&2));
    cell.get_mut().unwrap().push('!');
    assert_eq!(cell.get().map(String::as_str), Some("two!"));
    assert_eq!(cell.get_key(), Some(&2));
    let empty: StateCell<u32, u32> = StateCell::default();
    assert_eq!(empty.get(), None);
}

#[test]
fn notification_keeps_message_and_time() {
    let notification = Notification::at("saved".to_owned(), 17);
    assert_eq!(notification.message, "saved");
    assert_eq!(notification.timestamp, 17);
    let first = Notification::new("now".to_owned());
    assert_eq!(first.message, "now");
    // some time after 2020
    assert!(first.timestamp > 1_577_836_800_000_000);
}

#[test]
fn profile_pane_selects_first_with_id() {
    let mut pane = ProfilePane::new(profiles());
    assert_eq!(pane.selected_profile(), None);
    assert_eq!(pane.label(), "No profiles defined");
    assert!(matches!(
        pane.update(ProfileEvent::Select(ProfileId::new("a"))),
        ProfileUpdate::LoadRequest
    ));
    assert_eq!(pane.selected_profile(), Some(&profile("a", Some("First"))));
    assert_eq!(pane.label(), "First");
    assert!(matches!(
        pane.update(ProfileEvent::Select(ProfileId::new("b"))),
        ProfileUpdate::LoadRequest
    ));
    assert_eq!(pane.label(), "b");
    assert!(matches!(pane.update(ProfileEvent::Other), ProfileUpdate::Propagate));
    assert_eq!(pane.label(), "b");
    assert!(matches!(
        pane.update(ProfileEvent::Select(ProfileId::new("gone"))),
        ProfileUpdate::LoadRequest
    ));
    assert_eq!(pane.selected_profile(), None);
    assert_eq!(pane.label(), "No profiles defined");
}

#[test]
fn profile_pane_opens_modal_with_preselection() {
    let mut pane = ProfilePane::new(profiles());
    let modal = match pane.update(ProfileEvent::OpenList) {
        ProfileUpdate::OpenModal(modal) => modal,
        other => panic!("{other:?}"),
    };
    assert_eq!(modal.items(), &profiles());
    assert_eq!(modal.selected(), Some(&profile("a", Some("First"))));
    pane.update(ProfileEvent::Select(ProfileId::new("b")));
    let modal = match pane.update(ProfileEvent::OpenList) {
        ProfileUpdate::OpenModal(modal) => modal,
        other => panic!("{other:?}"),
    };
    assert_eq!(modal.selected(), Some(&profile("b", None)));
    match modal.submit() {
        Some(ProfileEvent::Select(id)) => assert_eq!(id, ProfileId::new("b")),
        other => panic!("{other:?}"),
    }
}

#[test]
fn profile_list_modal() {
    let id = ProfileId::new("b");
    let modal = ProfileListModal::new(profiles(), Some(&id));
    assert_eq!(modal.title(), "Profiles");
    assert_eq!(modal.dimensions(), (60, 40));
    assert_eq!(modal.list_height(), 3);
    assert_eq!(modal.selected(), Some(&profile("b", None)));
    let missing = ProfileId::new("zz");
    let modal = ProfileListModal::new(profiles(), Some(&missing));
    assert_eq!(modal.selected(), Some(&profile("a", Some("First"))));
    let modal = ProfileListModal::new(profiles(), None);
    assert_eq!(modal.selected(), Some(&profile("a", Some("First"))));
    let modal = ProfileListModal::new(vec![], Some(&id));
    assert_eq!(modal.selected(), None);
    assert_eq!(modal.list_height(), 0);
    assert!(modal.submit().is_none());
    let many = (0..9).map(|i| profile(&format!("p{i}"), None)).collect();
    let modal = ProfileListModal::new(many, None);
    assert_eq!(modal.list_height(), 5);
}

#[test]
fn profile_detail_keeps_rows_per_profile() {
    let mut detail = ProfileDetail::new();
    assert_eq!(detail.profile_id(), None);
    let first = profile("a", None);
    let rows = detail.rows(ProfileDetailProps { profile: &first });
    assert_eq!(rows, &vec![("host".to_owned(), Template::new("a"))]);
    assert_eq!(detail.profile_id(), Some(&ProfileId::new("a")));
    // Same profile id: the rows that are kept come back, though the data differs
    let changed = Profile { data: vec![], ..profile("a", None) };
    let rows = detail.rows(ProfileDetailProps { profile: &changed });
    assert_eq!(rows.len(), 1);
    let other = profile("b", None);
    let rows = detail.rows(ProfileDetailProps { profile: &other });
    assert_eq!(rows, &vec![("host".to_owned(), Template::new("b"))]);
    assert_eq!(detail.profile_id(), Some(&ProfileId::new("b")));
}

#[test]
fn profile_id_names_profile() {
    assert!(ProfileId::new("a").names(&profile("a", None)));
    assert!(!ProfileId::new("a").names(&profile("b", None)));
    assert_eq!(ProfileId::new("a").clone(), ProfileId::new("a"));
    assert_eq!(profile("a", Some("n")).duplicate(), profile("a", Some("n")));
    assert_eq!(profile("a", Some("n")).name(), "n");
    assert_eq!(profile("a", None).name(), "a");
}

fn recipe() -> Recipe {
    Recipe {
        id: RecipeId::new("r"),
        method: Method::Put,
        url: Template::new("{{host}}/x"),
        query: vec![
            ("a".to_owned(), Template::new("1")),
            ("b".to_owned(), Template::new("2")),
            ("a".to_owned(), Template::new("3")),
        ],
        headers: vec![("Accept".to_owned(), Template::new("*/*"))],
        authentication: Some(Authentication::Bearer(Template::new("{{token}}"))),
        body: Some(Template::new("body")),
    }
}

#[test]
fn recipe_display_starts_with_everything_on() {
    let display = RecipeDisplay::new(&recipe());
    assert_eq!(display.tab, Tab::Body);
    assert_eq!(display.tab.title(), "Body");
    assert_eq!(Tab::Authentication.title(), "Authentication");
    assert_eq!(display.method, Method::Put);
    assert_eq!(display.url, Template::new("{{host}}/x"));
    assert_eq!(display.query.len(), 3);
    assert!(display.query.is_enabled(2));
    assert!(!display.query.is_enabled(3));
    assert!(display.has_body());
    assert_eq!(display.body_text(), Some("body"));
    assert_eq!(display.build_options(), BuildOptions::new());
    let bare = Recipe { body: None, authentication: None, ..recipe() };
    let display = RecipeDisplay::new(&bare);
    assert!(!display.has_body());
    assert_eq!(display.body_text(), None);
    assert!(display.authentication.is_none());
}

#[test]
fn recipe_display_build_options() {
    let mut display = RecipeDisplay::new(&recipe());
    display.query.set_enabled(1, false);
    display.query.set_enabled(7, false);
    display.headers.set_enabled(0, false);
    display.body.as_mut().unwrap().override_value = Some(b"other".to_vec());
    display.authentication.as_mut().unwrap().override_value =
        Some(Authentication::Basic { username: "u".to_owned(), password: None });
    let options = display.build_options();
    assert_eq!(options.disabled_query_parameters, vec!["b".to_owned()]);
    assert_eq!(options.disabled_headers, vec!["Accept".to_owned()]);
    assert_eq!(options.body_override, Some(b"other".to_vec()));
    assert_eq!(
        options.authentication_override,
        Some(Authentication::Basic { username: "u".to_owned(), password: None })
    );
    assert!(options.form_field_overrides.is_empty());
    // What is switched off is not planned
    let seed = RequestSeed::new(RequestId(1), recipe(), options);
    let plan = seed.plan();
    assert_eq!(
        plan.query,
        vec![("a".to_owned(), Template::new("1")), ("a".to_owned(), Template::new("3"))]
    );
    assert!(plan.headers.is_empty());
    display.query.set_enabled(1, true);
    display.query.set_enabled(0, false);
    assert_eq!(display.build_options().disabled_query_parameters, vec!["a".to_owned()]);
}

#[test]
fn field_table_switches() {
    let fields = vec![("x".to_owned(), Template::new("1")), ("y".to_owned(), Template::new("2"))];
    let mut table = RecipeFieldTable::new(&fields);
    assert_eq!(table.len(), 2);
    assert_eq!(table.to_build_overrides(), Vec::<String>::new());
    table.set_enabled(0, false);
    table.set_enabled(1, false);
    assert_eq!(table.to_build_overrides(), vec!["x".to_owned(), "y".to_owned()]);
    assert!(!table.is_enabled(0));
    table.set_enabled(0, true);
    assert_eq!(table.to_build_overrides(), vec!["y".to_owned()]);
}

fn response() -> ResponseRecord {
    ResponseRecord::new(
        200,
        vec![
            ("content-type".to_owned(), b"text/plain".to_vec()),
            ("x-bytes".to_owned(), vec![b'a', 0xe9, b'\t']),
        ],
        b"hello!".to_vec(),
    )
}

#[test]
fn body_menu_labels() {
    assert_eq!(BodyMenuAction::EditCollection.to_string(), "Edit Collection");
    assert_eq!(BodyMenuAction::ViewBody.to_string(), "View Body");
    assert_eq!(BodyMenuAction::CopyBody.to_string(), "Copy Body");
    assert_eq!(BodyMenuAction::SaveBody.to_string(), "Save Body as File");
}

#[test]
fn test_copy_body() {
    let response = response();
    let recipe_id = RecipeId::new("r");
    let props = ResponseBodyViewProps {
        request_id: RequestId(5),
        recipe_id: &recipe_id,
        response: &response,
    };
    let mut view = ResponseBodyView::default();
    // Nothing shown yet: only the collection can be edited
    assert_eq!(view.update(BodyEvent::OpenActions), BodyUpdate::OpenActions);
    assert_eq!(view.update(BodyEvent::Other), BodyUpdate::Propagate);
    assert_eq!(view.update(BodyEvent::Menu(BodyMenuAction::CopyBody)), BodyUpdate::Consumed);
    assert_eq!(view.update(BodyEvent::Menu(BodyMenuAction::SaveBody)), BodyUpdate::Consumed);
    assert_eq!(
        view.update(BodyEvent::Menu(BodyMenuAction::EditCollection)),
        BodyUpdate::Send(Message::CollectionEdit)
    );
    assert_eq!(view.draw(&props).request_id, RequestId(5));
    // Drawn, but no text yet
    assert_eq!(view.update(BodyEvent::Menu(BodyMenuAction::CopyBody)), BodyUpdate::Consumed);
    assert_eq!(view.update(BodyEvent::Menu(BodyMenuAction::ViewBody)), BodyUpdate::Consumed);
    view.set_text(BodyText { visible: Some("hello!".to_owned()), parsed: None });
    assert_eq!(
        view.update(BodyEvent::Menu(BodyMenuAction::CopyBody)),
        BodyUpdate::Send(Message::CopyText("hello!".to_owned()))
    );
    assert_eq!(
        view.update(BodyEvent::Menu(BodyMenuAction::ViewBody)),
        BodyUpdate::Send(Message::ViewText("hello!".to_owned()))
    );
    assert_eq!(
        view.with_body(|text| Message::CopyText(text.to_uppercase())),
        Some(Message::CopyText("HELLO!".to_owned()))
    );
}

#[test]
fn test_save_file() {
    let response = response();
    let recipe_id = RecipeId::new("r");
    let mut view = ResponseBodyView::new();
    let props = |id| ResponseBodyViewProps {
        request_id: RequestId(id),
        recipe_id: &recipe_id,
        response: &response,
    };
    view.draw(&props(5));
    assert_eq!(
        view.update(BodyEvent::Menu(BodyMenuAction::SaveBody)),
        BodyUpdate::Send(Message::SaveResponseBody { request_id: RequestId(5), data: None })
    );
    let pretty = "{\n  \"hello\": \"world\"\n}";
    view.set_text(BodyText {
        visible: Some(pretty.to_owned()),
        parsed: Some(pretty.to_owned()),
    });
    assert_eq!(
        view.update(BodyEvent::Menu(BodyMenuAction::SaveBody)),
        BodyUpdate::Send(Message::SaveResponseBody {
            request_id: RequestId(5),
            data: Some(pretty.to_owned())
        })
    );
    // The same request keeps its state, another begins anew
    assert_eq!(view.draw(&props(5)).body.visible.as_deref(), Some(pretty));
    assert_eq!(view.draw(&props(6)).body.visible, None);
    assert_eq!(
        view.update(BodyEvent::Menu(BodyMenuAction::SaveBody)),
        BodyUpdate::Send(Message::SaveResponseBody { request_id: RequestId(6), data: None })
    );
    assert_eq!(view.with_body(|_| Message::CollectionEdit), None);
}

#[test]
fn response_headers_rows() {
    let response = response();
    let rows = ResponseHeadersView.draw(&ResponseHeadersViewProps { response: &response });
    assert_eq!(
        rows,
        vec![
            ("content-type".to_owned(), "text/plain".chars().collect::<Vec<char>>()),
            ("x-bytes".to_owned(), vec!['a', '\u{e9}', '\t']),
        ]
    );
}
