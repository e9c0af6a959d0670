use einkaufsliste::client::{decode_created_id, APIError, ApiClient, ClientConfig};
use einkaufsliste::model::item::Item;
use einkaufsliste::model::list::{FlatItemsList, List};
use einkaufsliste::model::user::User;
use einkaufsliste::ui::app::{
    login_outcome, refresh_outcome, Einkaufsliste, GuiMessage, MainCommand, MainMessage, Page,
    Status, Toast,
};
use einkaufsliste::ui::completions::complete;
use einkaufsliste::ui::home::{HomeCommand, HomeMessage, HomeView};
use einkaufsliste::ui::item_view::{drop_padding, item_view_step, ItemAction, ItemEvent, ItemViewState};
use einkaufsliste::ui::list_page::{
    after_list_load, remove_item_by_id, reorder_items, ListPageItems, LoaderAction, LoaderNavigation,
};
use einkaufsliste::ui::list_service::{ListService, SyncType};
use einkaufsliste::ui::login::{
    auth_outcome, auth_request, auth_state, AuthOutcome, AuthType, LoginCommand, LoginMessage, LoginView,
};
use einkaufsliste::ui::modal::{check_required_fields, TextInputModal, TextInputModalField};
use einkaufsliste::routing::{
    parse_routable, parse_struct_attrs, parse_variants_attributes, to_path_template, variant_for_path, DataKind,
    MetaShape, NestedMeta, PrefixError, RoutableError, RouteError, StructAttribute, VariantAttributes,
};
use einkaufsliste::ui::errors::{needs_authentication, ErrorHandler};
use einkaufsliste::runner::{
    backend_build_args, backend_run_args, filter_backend_events, filter_frontend_events, frontend_build_args,
    path_starts_with, project_root_index,
};
use einkaufsliste::Encoding;

fn shopping_item(id: u64, name: &str, checked: bool) -> Item {
    Item {
        id,
        checked,
        name: name.to_string(),
        amount: None,
        unit: None,
        article_id: None,
        alternative_article_ids: None,
    }
}

fn ids(items: &[Item]) -> Vec<u64> {
    items.iter().map(|i| i.id).collect()
}

fn field(name: &str, required: bool, value: &str) -> TextInputModalField {
    TextInputModalField {
        name: name.to_string(),
        placeholder: None,
        required,
        value: value.to_string(),
    }
}

fn strings(parts: &[&str]) -> Vec<String> {
    parts.iter().map(|p| p.to_string()).collect()
}

#[test]
fn api_error_messages() {
    assert_eq!(
        APIError::Network("timeout".into()).message(),
        "A network error occurred: timeout"
    );
    assert_eq!(APIError::InternalServer.message(), "An internal server error occured.");
    assert_eq!(
        APIError::Unauthorized.message(),
        "You are not authorized to access the requested resource."
    );
    assert_eq!(
        APIError::Unauthenticated.message(),
        "You must authenticate yourself to access the requested resource."
    );
    assert_eq!(
        APIError::Encoding("bad".into()).message(),
        "An unexpected error occurred while encoding the request: bad"
    );
    assert_eq!(
        APIError::Decoding("eof".into()).message(),
        "An unexpected error occurred while decoding the response: eof"
    );
    assert_eq!(APIError::Unknown("x".into()).message(), "Unknown error: x");
}

#[test]
fn http_failures_are_classified_by_status() {
    assert!(matches!(
        APIError::from_http_failure(None, "", "refused".into()),
        APIError::Network(m) if m == "refused"
    ));
    assert!(matches!(
        APIError::from_http_failure(Some(401), "401 Unauthorized", "".into()),
        APIError::Unauthenticated
    ));
    assert!(matches!(
        APIError::from_http_failure(Some(403), "403 Forbidden", "".into()),
        APIError::Unauthorized
    ));
    assert!(matches!(
        APIError::from_http_failure(Some(500), "500 Internal Server Error", "".into()),
        APIError::InternalServer
    ));
    assert!(matches!(
        APIError::from_http_failure(Some(404), "404 Not Found", "gone".into()),
        APIError::Unknown(m) if m == "Unexpected status code: 404 Not Found with message gone"
    ));
}

#[test]
fn json_failures_split_into_encoding_and_decoding() {
    assert!(matches!(APIError::from_json_failure(true, "io".into()), APIError::Encoding(m) if m == "io"));
    assert!(matches!(APIError::from_json_failure(false, "syntax".into()), APIError::Decoding(m) if m == "syntax"));
}

#[test]
fn client_endpoints() {
    let client = ApiClient::new("http://localhost:8080".into(), "/tmp/cookies".into());
    assert_eq!(client.login_url(), "http://localhost:8080/login/v1");
    assert_eq!(client.register_url(), "http://localhost:8080/register/v1");
    assert_eq!(client.all_lists_url(), "http://localhost:8080/user/lists");
    assert_eq!(client.item_list_url(), "http://localhost:8080/itemList");
    assert_eq!(client.new_item_url(), "http://localhost:8080/item/attached");
    assert_eq!(client.delete_item_url(), "http://localhost:8080/item");
    assert_eq!(client.fetch_list_url(42), "http://localhost:8080/itemList/42/flat");
    assert_eq!(client.fetch_list_url(0), "http://localhost:8080/itemList/0/flat");
    assert_eq!(client.get_img_url(7), "http://localhost:8080/image/7");
    assert_eq!(client.cookie_store_base_path(), "/tmp/cookies");
}

#[test]
fn client_encoding_and_headers() {
    let mut client = ApiClient::new("http://h".into(), "p".into());
    assert!(client.encoding() == Encoding::Rkyv);
    assert_eq!(client.request_headers(), ("application/rkyv", "application/rkyv"));
    client.set_encoding(Encoding::JSON);
    assert!(client.encoding() == Encoding::JSON);
    assert_eq!(client.request_headers(), ("application/json", "application/json"));
    assert_eq!(client.login_url(), "http://h/login/v1");

    let config = ClientConfig::with_base_path("store".into());
    assert!(config.encoding == Encoding::Rkyv);
    let configured = ApiClient::new_with_config(
        "http://x".into(),
        ClientConfig { encoding: Encoding::JSON, cookie_store_base_path: "c".into() },
    );
    assert!(configured.encoding() == Encoding::JSON);
    assert_eq!(configured.cookie_store_base_path(), "c");
}

#[test]
fn created_ids_are_eight_big_endian_bytes() {
    assert_eq!(decode_created_id(&[0, 0, 0, 0, 0, 0, 1, 2]).unwrap(), 258);
    assert_eq!(decode_created_id(&42u64.to_be_bytes()).unwrap(), 42);
    assert!(matches!(
        decode_created_id(&[1, 2, 3]),
        Err(APIError::Decoding(m)) if m == "could not convert slice to array"
    ));
    assert!(matches!(decode_created_id(&[]), Err(APIError::Decoding(_))));
}

#[test]
fn completions_suggest_checked_items_with_matching_prefix() {
    let items = vec![
        shopping_item(1, "Milk", true),
        shopping_item(2, "Mint", false),
        shopping_item(3, "Minced meat", true),
        shopping_item(4, "Bread", true),
        shopping_item(5, "Mi", true),
    ];
    assert_eq!(complete(&items, "Mi"), vec![0, 2, 4]);
    assert_eq!(complete(&items, "Min"), vec![2]);
    assert_eq!(complete(&items, "B"), vec![3]);
    assert_eq!(complete(&items, "x"), Vec::<usize>::new());
    assert_eq!(complete(&items, ""), Vec::<usize>::new());
}

#[test]
fn reorder_moves_dragged_item_to_target_position() {
    let mut items = vec![shopping_item(1, "a", false), shopping_item(2, "b", false), shopping_item(3, "c", false), shopping_item(4, "d", false)];
    reorder_items(&mut items, 1, 3);
    assert_eq!(ids(&items), vec![2, 3, 1, 4]);

    let mut items = vec![shopping_item(1, "a", false), shopping_item(2, "b", false), shopping_item(3, "c", false), shopping_item(4, "d", false)];
    reorder_items(&mut items, 4, 2);
    assert_eq!(ids(&items), vec![1, 4, 2, 3]);
}

#[test]
fn reorder_without_both_items_changes_nothing() {
    let mut items = vec![shopping_item(1, "a", false), shopping_item(2, "b", false)];
    reorder_items(&mut items, 1, 9);
    assert_eq!(ids(&items), vec![1, 2]);
    reorder_items(&mut items, 9, 1);
    assert_eq!(ids(&items), vec![1, 2]);
    reorder_items(&mut items, 2, 2);
    assert_eq!(ids(&items), vec![1, 2]);
}

#[test]
fn reorder_keeps_the_same_items() {
    let mut items = vec![shopping_item(5, "a", false), shopping_item(6, "b", true), shopping_item(7, "c", false)];
    reorder_items(&mut items, 7, 5);
    let mut sorted = ids(&items);
    sorted.sort();
    assert_eq!(sorted, vec![5, 6, 7]);
    assert_eq!(ids(&items), vec![7, 5, 6]);
}

#[test]
fn remove_item_by_id_takes_out_first_match() {
    let mut items = vec![shopping_item(1, "a", false), shopping_item(2, "b", false), shopping_item(3, "c", false)];
    let removed = remove_item_by_id(&mut items, 2);
    assert_eq!(removed.id, 2);
    assert_eq!(removed.name, "b");
    assert_eq!(ids(&items), vec![1, 3]);
}

#[test]
fn home_view_selection() {
    let mut home = HomeView::new();
    assert!(!home.selection_mode);
    assert!(home.selected_lists.is_empty());
    assert!(home.update(HomeMessage::ToggleSelectionMode) == HomeCommand::Nothing);
    assert!(home.selection_mode);
    home.update(HomeMessage::SelectList(3));
    home.update(HomeMessage::SelectList(4));
    home.update(HomeMessage::SelectList(3));
    assert_eq!(home.selected_lists, vec![3, 4, 3]);
    home.update(HomeMessage::DeselectList(3));
    assert_eq!(home.selected_lists, vec![4]);
    assert!(home.update(HomeMessage::NewList) == HomeCommand::CreateList);
    assert_eq!(home.selected_lists, vec![4]);
}

#[test]
fn login_view_collects_credentials() {
    let mut view = LoginView::new();
    assert!(matches!(view.update(LoginMessage::UsernameChanged("anna".into())), LoginCommand::Nothing));
    assert!(matches!(view.update(LoginMessage::PasswordChanged("secret".into())), LoginCommand::Nothing));
    match view.update(LoginMessage::Login) {
        LoginCommand::Login(r) => {
            assert_eq!(r.name, "anna");
            assert_eq!(r.password, "secret");
        }
        _ => panic!("expected a login"),
    }
    match view.update(LoginMessage::Register) {
        LoginCommand::Register(r) => {
            assert_eq!(r.name, "anna");
            assert_eq!(r.password, "secret");
        }
        _ => panic!("expected a registration"),
    }
    assert_eq!(view.username, "anna");
}

#[test]
fn modal_required_fields() {
    let filled = vec![field("name", true, "Weekly"), field("note", false, "")];
    let missing = vec![field("name", true, ""), field("note", false, "x")];
    assert!(check_required_fields(&filled));
    assert!(!check_required_fields(&missing));
    assert!(check_required_fields(&vec![]));
    assert!(TextInputModal::submits_on_key("Enter", &filled, 1));
    assert!(!TextInputModal::submits_on_key("Enter", &filled, 0));
    assert!(!TextInputModal::submits_on_key("Escape", &filled, 1));
    assert!(!TextInputModal::submits_on_key("Enter", &missing, 2));
}

fn flat(id: u64, name: &str, items: Vec<Item>) -> FlatItemsList {
    FlatItemsList { id, name: name.to_string(), shop: None, image_id: None, items }
}

#[test]
fn app_title_follows_page() {
    let mut app = Einkaufsliste::new();
    assert_eq!(app.title(), "Einkaufsliste - Home");
    app.update(MainMessage::PageChanged(Page::Settings));
    assert_eq!(app.title(), "Einkaufsliste - Settings");
    app.update(MainMessage::PageChanged(Page::List(9)));
    assert_eq!(app.title(), "Einkaufsliste - Unknown list");
    app.update(MainMessage::NewLists(vec![flat(9, "Groceries", vec![shopping_item(1, "Milk", false)])]));
    assert_eq!(app.title(), "Einkaufsliste - Groceries");
    app.update(MainMessage::PageChanged(Page::Article(1)));
    assert_eq!(app.title(), "Einkaufsliste - Unknown article");
    app.update(MainMessage::PageChanged(Page::Shop(1)));
    assert_eq!(app.title(), "Einkaufsliste - Unknown shop");
    app.update(MainMessage::PageChanged(Page::Login));
    assert_eq!(app.title(), "Einkaufsliste - Login");
}

#[test]
fn app_stores_new_lists_and_their_items() {
    let mut app = Einkaufsliste::new();
    let c = app.update(MainMessage::NewLists(vec![
        flat(1, "a", vec![shopping_item(10, "x", false), shopping_item(11, "y", true)]),
        flat(2, "b", vec![]),
    ]));
    assert!(matches!(c, MainCommand::Nothing));
    assert_eq!(app.lists.len(), 2);
    assert_eq!(app.lists[0].items, vec![10, 11]);
    assert_eq!(app.lists[1].name, "b");
    assert_eq!(ids(&app.items[&1]), vec![10, 11]);
    assert!(app.items[&2].is_empty());
    app.update(MainMessage::NewLists(vec![flat(1, "a", vec![shopping_item(12, "z", false)])]));
    assert_eq!(app.lists.len(), 3);
    assert_eq!(ids(&app.items[&1]), vec![12]);
}

#[test]
fn app_refresh_only_fetches_on_home() {
    let mut app = Einkaufsliste::new();
    assert!(matches!(app.update(MainMessage::Refresh), MainCommand::FetchAllLists));
    app.update(MainMessage::PageChanged(Page::Settings));
    assert!(matches!(app.update(MainMessage::Refresh), MainCommand::Nothing));
    assert!(matches!(app.update(MainMessage::NoOp), MainCommand::Nothing));
}

#[test]
fn app_unauthenticated_error_logs_out() {
    let mut app = Einkaufsliste::new();
    app.update(MainMessage::UserChanged(User { id: 1, name: "anna".into(), profile_picture_id: None }));
    assert!(app.user.is_some());
    app.update(MainMessage::PageChanged(Page::Settings));
    app.update(MainMessage::Toast(GuiMessage::ApiError(APIError::Unauthenticated)));
    assert!(app.user.is_none());
    assert!(app.current_page == Page::Login);
    assert_eq!(app.toasts.len(), 1);
    assert_eq!(app.toasts[0].title, "You are not authenticated");
    assert!(app.toasts[0].status == Status::Primary);
}

#[test]
fn app_error_toasts() {
    let mut app = Einkaufsliste::new();
    app.update(MainMessage::Toast(GuiMessage::ApiError(APIError::Network("down".into()))));
    app.update(MainMessage::Toast(GuiMessage::ApiError(APIError::InternalServer)));
    app.update(MainMessage::Toast(GuiMessage::Other(Toast {
        title: "Saved".into(),
        body: "ok".into(),
        status: Status::Primary,
    })));
    assert_eq!(app.toasts.len(), 3);
    assert_eq!(app.toasts[0].title, "Network error");
    assert_eq!(app.toasts[0].body, "A network error occurred: down");
    assert!(app.toasts[0].status == Status::Primary);
    assert_eq!(app.toasts[1].title, "Unknown error");
    assert!(app.toasts[1].status == Status::Danger);
    assert_eq!(app.toasts[2].title, "Saved");
    app.update(MainMessage::CloseToast(1));
    assert_eq!(app.toasts.len(), 2);
    assert_eq!(app.toasts[1].title, "Saved");
    assert!(app.current_page == Page::Home);
}

#[test]
fn app_login_and_home_messages_become_commands() {
    let mut app = Einkaufsliste::new();
    app.update(MainMessage::Login(LoginMessage::UsernameChanged("bob".into())));
    app.update(MainMessage::Login(LoginMessage::PasswordChanged("pw".into())));
    match app.update(MainMessage::Login(LoginMessage::Login)) {
        MainCommand::Login(r) => {
            assert_eq!(r.name, "bob");
            assert_eq!(r.password, "pw");
        }
        _ => panic!("expected a login"),
    }
    assert!(matches!(app.update(MainMessage::Login(LoginMessage::Register)), MainCommand::Register(_)));
    assert!(matches!(app.update(MainMessage::Home(HomeMessage::NewList)), MainCommand::CreateList));
    assert!(matches!(app.update(MainMessage::Home(HomeMessage::SelectList(1))), MainCommand::Nothing));
}

#[test]
fn outcomes_become_messages() {
    let lists = vec![List { id: 4, name: "L".into(), shop: Some(2), image_id: None, items: vec![1, 2] }];
    match refresh_outcome(Ok(lists)) {
        MainMessage::NewLists(fs) => {
            assert_eq!(fs.len(), 1);
            assert_eq!(fs[0].id, 4);
            assert_eq!(fs[0].name, "L");
            assert_eq!(fs[0].shop, Some(2));
            assert!(fs[0].items.is_empty());
        }
        _ => panic!("expected new lists"),
    }
    assert!(matches!(
        refresh_outcome(Err(APIError::Unauthorized)),
        MainMessage::Toast(GuiMessage::ApiError(APIError::Unauthorized))
    ));
    let user = User { id: 3, name: "c".into(), profile_picture_id: None };
    assert!(matches!(login_outcome(Ok(user)), MainMessage::UserChanged(u) if u.id == 3));
    assert!(matches!(
        login_outcome(Err(APIError::Unauthenticated)),
        MainMessage::Toast(GuiMessage::ApiError(APIError::Unauthenticated))
    ));
}

fn variant(ident: &str, at: &[&str], not_found: usize) -> VariantAttributes {
    VariantAttributes {
        ident: ident.to_string(),
        unnamed_fields: false,
        at_routes: strings(at),
        not_found_attrs: not_found,
    }
}

#[test]
fn route_attributes_parse() {
    let vs = vec![variant("Home", &["/"], 0), variant("List", &["/list/:id"], 0), variant("Missing", &["/404"], 1)];
    let (nf, routes) = parse_variants_attributes(&vs, None).unwrap();
    assert_eq!(nf, Some("Missing".to_string()));
    assert_eq!(routes, strings(&["/", "/list/:id", "/404"]));

    let (nf, routes) = parse_variants_attributes(&vec![variant("A", &["a"], 0)], Some("/app/")).unwrap();
    assert_eq!(nf, None);
    assert_eq!(routes, strings(&["/app/a"]));

    assert!(parse_variants_attributes(&vec![variant("A", &["a"], 0)], None) == Err(RouteError::RelativePath));
    assert!(parse_variants_attributes(&vec![variant("A", &[], 0)], None) == Err(RouteError::MissingAt));
    assert!(parse_variants_attributes(&vec![variant("A", &["/a", "/b"], 0)], None) == Err(RouteError::MultipleAt));
    assert!(parse_variants_attributes(&vec![variant("A", &["/a#b"], 0)], None) == Err(RouteError::HashInRoute));
    assert!(
        parse_variants_attributes(&vec![variant("A", &["/a"], 1), variant("B", &["/b"], 1)], None)
            == Err(RouteError::MultipleNotFound)
    );
    let mut tuple = variant("T", &["/t"], 0);
    tuple.unnamed_fields = true;
    assert!(parse_variants_attributes(&vec![tuple], None) == Err(RouteError::UnnamedFields));
    assert_eq!(RouteError::MissingAt.message(), "at attribute must be present on every variant");

    assert_eq!(to_path_template("/list/:id/item/*rest", &strings(&["id", "rest"])), "/list/{id}/item/{rest}");
    assert_eq!(to_path_template("/static", &vec![]), "/static");
}

#[test]
fn runner_event_filters() {
    let web_root = strings(&["p", "backend", "web_root"]);
    let data = strings(&["p", "backend", "data.sled"]);
    let dist = strings(&["p", "frontend", "dist"]);
    assert!(path_starts_with(&strings(&["p", "backend", "web_root", "a.js"]), &web_root));
    assert!(!path_starts_with(&strings(&["p", "backend"]), &web_root));
    assert!(!path_starts_with(&strings(&["p", "backend", "web_rootx"]), &web_root));

    let only_static = vec![strings(&["p", "backend", "web_root", "a.js"]), strings(&["p", "backend", "data.sled", "db"])];
    assert!(!filter_backend_events(&only_static, &web_root, &data));
    let with_source = vec![strings(&["p", "backend", "web_root", "a.js"]), strings(&["p", "backend", "src", "main.rs"])];
    assert!(filter_backend_events(&with_source, &web_root, &data));
    assert!(!filter_backend_events(&vec![], &web_root, &data));

    assert!(!filter_frontend_events(&vec![strings(&["p", "frontend", "dist", "index.html"])], &dist));
    assert!(filter_frontend_events(&vec![strings(&["p", "frontend", "src", "lib.rs"])], &dist));
}

#[test]
fn list_service_batches_item_changes() {
    let initial = flat(7, "Weekly", vec![shopping_item(1, "a", false), shopping_item(2, "b", false)]);
    let mut service = ListService::new(initial);
    assert_eq!(service.meta().id, 7);
    assert_eq!(service.meta().items, vec![1, 2]);
    assert_eq!(ids(service.items()), vec![1, 2]);

    let mut changed = shopping_item(1, "a", true);
    service.item_changed(changed.clone());
    changed.name = "apples".into();
    service.item_changed(changed);
    service.item_changed(shopping_item(2, "b", true));
    assert_eq!(service.items()[0].name, "apples");
    assert!(service.items()[0].checked);
    assert!(service.items()[1].checked);

    let (list_id, sent) = service.sync_items();
    assert_eq!(list_id, 7);
    let mut sent: Vec<Item> = sent.into_values().collect();
    sent.sort_by_key(|i| i.id);
    assert_eq!(ids(&sent), vec![1, 2]);
    assert_eq!(sent[0].name, "apples");
    let (_, again) = service.sync_items();
    assert!(again.is_empty());
    assert!(SyncType::Meta != SyncType::Items);
}

#[test]
fn list_service_change_to_unknown_item_is_still_sent() {
    let mut service = ListService::new(flat(3, "L", vec![shopping_item(1, "a", false)]));
    service.item_changed(shopping_item(9, "new", false));
    assert_eq!(ids(service.items()), vec![1]);
    let (_, sent) = service.sync_items();
    assert_eq!(sent.keys().copied().collect::<Vec<u64>>(), vec![9]);
}

fn prefix_attr(meta: MetaShape) -> StructAttribute {
    StructAttribute { outer: true, is_route_prefix: true, meta }
}

#[test]
fn route_prefix_attribute() {
    assert_eq!(parse_struct_attrs(&vec![]).unwrap(), None);
    let other = StructAttribute { outer: true, is_route_prefix: false, meta: MetaShape::Path };
    let inner = StructAttribute { outer: false, is_route_prefix: true, meta: MetaShape::Path };
    let good = prefix_attr(MetaShape::List(vec![NestedMeta::StrLit("/dev/".into())]));
    assert_eq!(parse_struct_attrs(&vec![other.clone(), inner.clone()]).unwrap(), None);
    assert_eq!(parse_struct_attrs(&vec![other, inner, good.clone()]).unwrap(), Some("/dev/".to_string()));
    assert!(matches!(
        parse_struct_attrs(&vec![prefix_attr(MetaShape::List(vec![])), good.clone()]),
        Err(PrefixError::MissingPrefix)
    ));
    assert!(matches!(
        parse_struct_attrs(&vec![prefix_attr(MetaShape::List(vec![NestedMeta::Other]))]),
        Err(PrefixError::UnexpectedToken)
    ));
    assert!(matches!(parse_struct_attrs(&vec![prefix_attr(MetaShape::Path)]), Err(PrefixError::IncorrectFormat)));
    assert!(matches!(parse_struct_attrs(&vec![prefix_attr(MetaShape::NameValue)]), Err(PrefixError::IncorrectFormat)));
    assert!(matches!(
        parse_struct_attrs(&vec![prefix_attr(MetaShape::Unparsable("bad tokens".into()))]),
        Err(PrefixError::Unparsable(m)) if m == "bad tokens"
    ));
    assert_eq!(PrefixError::MissingPrefix.message(), "You failed to specify a prefix. Exactly one is required.");
    assert_eq!(
        PrefixError::IncorrectFormat.message(),
        "Incorrect format for route_prefix attribute. You must specify the attribute in List format like so: #[route_prefix(\"/dev/\")]"
    );
}

#[test]
fn routable_accepts_enums_only() {
    let vs = vec![variant("Home", &["home"], 0)];
    let prefix = vec![prefix_attr(MetaShape::List(vec![NestedMeta::StrLit("/dev/".into())]))];
    let (nf, routes) = parse_routable(DataKind::Enum, &prefix, &vs).unwrap();
    assert_eq!(nf, None);
    assert_eq!(routes, strings(&["/dev/home"]));
    assert!(matches!(parse_routable(DataKind::Struct, &prefix, &vs), Err(RoutableError::ExpectedEnumFoundStruct)));
    assert!(matches!(parse_routable(DataKind::Union, &prefix, &vs), Err(RoutableError::ExpectedEnumFoundUnion)));
    assert!(matches!(
        parse_routable(DataKind::Enum, &vec![], &vs),
        Err(RoutableError::Route(RouteError::RelativePath))
    ));
    assert!(matches!(
        parse_routable(DataKind::Enum, &vec![prefix_attr(MetaShape::Path)], &vs),
        Err(RoutableError::Prefix(PrefixError::IncorrectFormat))
    ));
}

#[test]
fn paths_lead_to_the_first_matching_variant() {
    let routes = strings(&["/", "/list", "/list"]);
    assert_eq!(variant_for_path(&routes, "/"), Some(0));
    assert_eq!(variant_for_path(&routes, "/list"), Some(1));
    assert_eq!(variant_for_path(&routes, "/lists"), None);
    assert_eq!(variant_for_path(&vec![], "/"), None);
}

#[test]
fn error_messages_are_shown_once_until_removed() {
    let mut handler = ErrorHandler::new();
    assert!(handler.errors().is_empty());
    handler.add_error("offline".into());
    handler.add_error("denied".into());
    handler.add_error("offline".into());
    assert_eq!(handler.errors(), &strings(&["offline", "denied"]));
    handler.remove_error("offline");
    assert_eq!(handler.errors(), &strings(&["denied"]));
    handler.remove_error("unknown");
    assert_eq!(handler.errors(), &strings(&["denied"]));
    assert!(needs_authentication(&APIError::Unauthenticated));
    assert!(!needs_authentication(&APIError::Unauthorized));
}

#[test]
fn runner_commands_and_project_root() {
    assert_eq!(frontend_build_args(false), vec!["build", "--features", "dev_router"]);
    assert_eq!(frontend_build_args(true), vec!["build", "--features", "dev_router", "--release"]);
    assert_eq!(backend_build_args(false), vec!["build", "--features", "serve_frontend", "--package", "backend"]);
    assert_eq!(backend_build_args(true).last(), Some(&"--release"));
    assert_eq!(backend_run_args(false), vec!["run", "--features", "serve_frontend"]);
    assert_eq!(backend_run_args(true), vec!["run", "--features", "serve_frontend", "--release"]);
    assert_eq!(project_root_index(&vec![false, true, true]), Some(1));
    assert_eq!(project_root_index(&vec![false, false]), None);
    assert_eq!(project_root_index(&vec![]), None);
}

#[test]
fn authentication_form_requests() {
    match auth_request(AuthType::Login, "eve".into(), "secret123".into()) {
        LoginCommand::Login(r) => {
            assert_eq!(r.name, "eve");
            assert_eq!(r.password, "secret123");
        }
        _ => panic!("expected a login"),
    }
    match auth_request(AuthType::Register, "eve".into(), "pw".into()) {
        LoginCommand::Register(r) => assert_eq!(r.password, "pw"),
        _ => panic!("expected a registration"),
    }
}

#[test]
fn item_row_sends_changes_after_the_first_render() {
    let s = ItemViewState::new(shopping_item(5, "milk", false));
    let (s, a) = item_view_step(s, ItemEvent::Mounted);
    assert!(matches!(a, ItemAction::Nothing));
    assert!(!s.first_render);
    let (s, a) = item_view_step(s, ItemEvent::ToggleChecked);
    assert!(s.item.checked);
    assert!(matches!(a, ItemAction::SendUpdate(ref i) if i.id == 5 && i.checked));
    let (s, a) = item_view_step(s, ItemEvent::Rename("oat milk".into()));
    assert_eq!(s.item.name, "oat milk");
    assert!(matches!(a, ItemAction::SendUpdate(ref i) if i.name == "oat milk"));
    let (s, a) = item_view_step(s, ItemEvent::Delete);
    assert!(matches!(a, ItemAction::SendDelete(5)));

    let fresh = ItemViewState::new(shopping_item(6, "eggs", false));
    let (fresh, a) = item_view_step(fresh, ItemEvent::ToggleChecked);
    assert!(matches!(a, ItemAction::Nothing));
    assert!(fresh.item.checked && !fresh.first_render);
    drop(s);
}

#[test]
fn item_row_drag_and_drop() {
    let s = ItemViewState::new(shopping_item(2, "bread", false));
    let (s, a) = item_view_step(s, ItemEvent::DragEnter);
    assert!(s.is_dragged_over && matches!(a, ItemAction::Nothing));
    assert_eq!(drop_padding(s.is_dragged_over), "pt-8");
    let (s, a) = item_view_step(s, ItemEvent::Drop);
    assert!(!s.is_dragged_over && matches!(a, ItemAction::Dropped(2)));
    assert_eq!(drop_padding(s.is_dragged_over), "");
    let (s, a) = item_view_step(s, ItemEvent::DragStart);
    assert!(s.is_getting_dragged && matches!(a, ItemAction::DragStarted(2)));
    let (s, _) = item_view_step(s, ItemEvent::DragEnter);
    assert!(!s.is_dragged_over);
    let (s, a) = item_view_step(s, ItemEvent::DragEnd);
    assert!(!s.is_getting_dragged && matches!(a, ItemAction::Nothing));
    let (s, _) = item_view_step(s, ItemEvent::DragLeave);
    assert!(!s.is_dragged_over);
}

#[test]
fn new_items_get_their_ids_from_the_server() {
    let mut page = ListPageItems::new(vec![shopping_item(1, "a", false)]);
    assert_eq!(page.pending(), None);
    let request = page.add_new_item(9, "butter".into());
    assert_eq!(request.list_id, 9);
    assert_eq!(request.item.name, "butter");
    assert_eq!(request.item.id, 0);
    assert_eq!(page.pending(), Some(1));
    assert!(page.new_item_stored(Ok(77)).is_none());
    assert_eq!(ids(page.items()), vec![1, 77]);
    assert_eq!(page.pending(), None);

    page.add_new_item(9, "salt".into());
    assert!(matches!(page.new_item_stored(Err(APIError::InternalServer)), Some(APIError::InternalServer)));
    assert_eq!(ids(page.items()), vec![1, 77, 0]);
    assert!(page.new_item_stored(Ok(3)).is_none());
    assert_eq!(ids(page.items()), vec![1, 77, 0]);

    let request = page.delete_item(9, 1);
    assert_eq!((request.list_id, request.item_id), (9, 1));
    assert_eq!(ids(page.items()), vec![77, 0]);
}

#[test]
fn the_waiting_item_is_followed_through_drags_and_deletes() {
    let mut page = ListPageItems::new(vec![shopping_item(1, "a", false), shopping_item(2, "b", false)]);
    page.add_new_item(5, "new".into());
    assert_eq!(page.pending(), Some(2));
    // the new row is dragged to the front: the id still reaches it
    page.reorder(0, 1);
    assert_eq!(page.pending(), Some(0));
    assert_eq!(page.items()[0].name, "new");
    // a row ahead of it is dropped behind it
    page.reorder(1, 2);
    assert_eq!(page.items()[page.pending().unwrap()].name, "new");
    page.delete_item(5, 1);
    assert_eq!(page.items()[page.pending().unwrap()].name, "new");
    assert!(page.new_item_stored(Ok(40)).is_none());
    let new = page.items().iter().find(|i| i.name == "new").unwrap();
    assert_eq!(new.id, 40);
    assert!(page.items().iter().filter(|i| i.id == 40).count() == 1);
}

#[test]
fn loading_a_list_shows_it_or_leaves_the_page() {
    match after_list_load(Ok(flat(4, "Party", vec![shopping_item(8, "chips", false)])), true) {
        LoaderAction::Show(meta, items) => {
            assert_eq!(meta.id, 4);
            assert_eq!(meta.items, vec![8]);
            assert_eq!(ids(&items), vec![8]);
        }
        _ => panic!("expected the list"),
    }
    assert!(matches!(
        after_list_load(Err(APIError::InternalServer), true),
        LoaderAction::Report(APIError::InternalServer, LoaderNavigation::GoBack)
    ));
    assert!(matches!(
        after_list_load(Err(APIError::Unauthorized), false),
        LoaderAction::Report(APIError::Unauthorized, LoaderNavigation::ReplaceWithHome)
    ));
}

#[test]
fn authentication_outcomes() {
    let user = User { id: 2, name: "ann".into(), profile_picture_id: None };
    assert!(matches!(auth_outcome(Ok(user.clone())), AuthOutcome::LoggedIn(u) if u.id == 2));
    assert!(matches!(auth_outcome(Err(APIError::Unauthenticated)), AuthOutcome::Failed(APIError::Unauthenticated)));
    let (u, r) = auth_state(Ok(user));
    assert!(u.is_some() && r.is_ok());
    let (u, r) = auth_state(Err(APIError::InternalServer));
    assert!(u.is_none() && matches!(r, Err(APIError::InternalServer)));
}

#[test]
fn web_client_classifies_status_codes() {
    assert!(matches!(APIError::from_web_http_failure(Some(401), "401", "".into()), APIError::Unauthorized));
    assert!(matches!(APIError::from_web_http_failure(Some(403), "403", "".into()), APIError::Unauthenticated));
    assert!(matches!(APIError::from_web_http_failure(Some(500), "500", "".into()), APIError::InternalServer));
    assert!(matches!(APIError::from_web_http_failure(None, "", "down".into()), APIError::Network(m) if m == "down"));
    assert!(matches!(
        APIError::from_web_http_failure(Some(418), "418 I'm a teapot", "tea".into()),
        APIError::Unknown(m) if m == "Unexpected status code: 418 I'm a teapot with message tea"
    ));
}
