use rusthgopher::error::ServeError;
use rusthgopher::resolve::{resolve_selector, selector_escapes};
use rusthgopher::server::{
    finish_response, forbidden_response, trim_request_line, validate_pool_size, ChildStat,
    ConnectionHandler, ItemType, MenuItem, ResponsePlan, ServerConfig,
};

fn handler(addr: &str, port: i32, root: &str) -> ConnectionHandler {
    ConnectionHandler::new(ServerConfig::new(addr, port, root))
}

#[test]
fn menu_line_for_text_file() {
    let item = MenuItem::new(ItemType::TextFile, "about.txt", "about.txt", "localhost", 70);
    assert_eq!(item.to_response_string(), "0about.txt\tabout.txt\tlocalhost\t70");
}

#[test]
fn menu_line_for_submenu() {
    let item = MenuItem::new(ItemType::Submenu, "files", "files/", "example.org", 7070);
    assert_eq!(item.to_response_string(), "1files\tfiles/\texample.org\t7070");
}

#[test]
fn menu_line_port_zero() {
    let item = MenuItem::new(ItemType::TextFile, "a", "a", "h", 0);
    assert_eq!(item.to_response_string(), "0a\ta\th\t0");
}

#[test]
fn root_listing_example() {
    let h = handler("localhost", 70, "/srv");
    let children = vec![
        ChildStat { name: String::from("about.txt"), is_dir: Some(false) },
        ChildStat { name: String::from("files"), is_dir: Some(true) },
    ];
    let items = h.build_menu_items(String::new(), children);
    let body = h.output_menu(items);
    assert_eq!(
        body,
        "0about.txt\tabout.txt\tlocalhost\t70\r\n1files\tfiles/\tlocalhost\t70\r\n"
    );
}

#[test]
fn menu_response_is_terminated() {
    let h = handler("localhost", 70, "/srv");
    let children = vec![ChildStat { name: String::from("notes"), is_dir: Some(true) }];
    let response = h.menu_response(String::new(), children);
    assert_eq!(response, "1notes\tnotes/\tlocalhost\t70\r\n\r\n.\r\n");
}

#[test]
fn empty_menu_response_is_bare_terminator() {
    let h = handler("localhost", 70, "/srv");
    let response = h.menu_response(String::new(), Vec::new());
    assert_eq!(response, "\r\n.\r\n");
}

#[test]
fn submenu_selector_includes_parent_path() {
    let h = handler("localhost", 70, "/srv");
    let children = vec![
        ChildStat { name: String::from("readme"), is_dir: Some(false) },
        ChildStat { name: String::from("deep"), is_dir: Some(true) },
    ];
    let items = h.build_menu_items(String::from("files/"), children);
    assert_eq!(items.len(), 2);
    assert_eq!(items[0].selector, "files/readme");
    assert_eq!(items[1].selector, "files/deep/");
}

#[test]
fn unreadable_child_is_skipped() {
    let h = handler("localhost", 70, "/srv");
    let children = vec![
        ChildStat { name: String::from("good.txt"), is_dir: Some(false) },
        ChildStat { name: String::from("broken"), is_dir: None },
        ChildStat { name: String::from("sub"), is_dir: Some(true) },
    ];
    let items = h.build_menu_items(String::new(), children);
    assert_eq!(items.len(), 2);
    assert_eq!(items[0].display_name, "good.txt");
    assert_eq!(items[1].display_name, "sub");
}

#[test]
fn content_round_trip() {
    let h = handler("localhost", 70, "/srv");
    let response = h.content_response(String::from("hello, world\nline two\n"));
    assert_eq!(response, "hello, world\nline two\n\r\n.\r\n");
}

#[test]
fn empty_content_is_bare_terminator() {
    assert_eq!(finish_response(String::new()), "\r\n.\r\n");
}

#[test]
fn request_line_is_trimmed() {
    assert_eq!(trim_request_line("about.txt\r\n"), "about.txt");
    assert_eq!(trim_request_line("files/\n"), "files/");
    assert_eq!(trim_request_line("bare"), "bare");
    assert_eq!(trim_request_line("\r\n"), "");
    assert_eq!(trim_request_line(""), "");
    assert_eq!(trim_request_line("a\n\r\n"), "a");
}

#[test]
fn forbidden_selector_gets_an_empty_listing() {
    assert_eq!(forbidden_response(), "\r\n.\r\n");
}

#[test]
fn traversal_is_forbidden() {
    assert_eq!(
        resolve_selector("/srv", "../../etc/passwd"),
        Err(ServeError::Forbidden)
    );
    assert_eq!(resolve_selector("/srv", ".."), Err(ServeError::Forbidden));
    assert_eq!(resolve_selector("/srv", "a/../b"), Err(ServeError::Forbidden));
    assert_eq!(resolve_selector("/srv", "a/.."), Err(ServeError::Forbidden));
}

#[test]
fn dotted_names_are_not_traversal() {
    assert_eq!(
        resolve_selector("/srv", "notes..txt"),
        Ok(String::from("/srv/notes..txt"))
    );
    assert_eq!(resolve_selector("/srv", "..."), Ok(String::from("/srv/...")));
    assert_eq!(
        resolve_selector("/srv", "a..b/c"),
        Ok(String::from("/srv/a..b/c"))
    );
    assert!(!selector_escapes("."));
    assert!(!selector_escapes(""));
}

#[test]
fn ordinary_selector_resolves_below_root() {
    assert_eq!(
        resolve_selector("/srv", "files/readme"),
        Ok(String::from("/srv/files/readme"))
    );
    assert_eq!(resolve_selector("/srv", ""), Ok(String::from("/srv/")));
}

#[test]
fn empty_selector_plans_root_listing() {
    let h = handler("localhost", 70, "/srv");
    let plan = h.plan_response("", String::from("/srv/"), Some(ItemType::Submenu));
    match plan {
        ResponsePlan::Menu { menu_path } => assert_eq!(menu_path, ""),
        ResponsePlan::File { .. } => panic!("empty selector must be served as a listing"),
    }
}

#[test]
fn missing_selector_falls_back_to_root_listing() {
    let h = handler("localhost", 70, "/srv");
    let plan = h.plan_response("no-such-entry", String::from("/srv/no-such-entry"), None);
    match plan {
        ResponsePlan::Menu { menu_path } => assert_eq!(menu_path, ""),
        ResponsePlan::File { .. } => panic!("a missing selector must fall back to the root listing"),
    }
}

#[test]
fn submenu_selector_plans_its_own_listing() {
    let h = handler("localhost", 70, "/srv");
    let plan = h.plan_response("files/", String::from("/srv/files/"), Some(ItemType::Submenu));
    match plan {
        ResponsePlan::Menu { menu_path } => assert_eq!(menu_path, "files/"),
        ResponsePlan::File { .. } => panic!("a directory must be served as a listing"),
    }
}

#[test]
fn text_selector_plans_file_contents() {
    let h = handler("localhost", 70, "/srv");
    let plan = h.plan_response(
        "about.txt",
        String::from("/srv/about.txt"),
        Some(ItemType::TextFile),
    );
    match plan {
        ResponsePlan::File { local_path } => assert_eq!(local_path, "/srv/about.txt"),
        ResponsePlan::Menu { .. } => panic!("a file must be served verbatim"),
    }
}

#[test]
fn kind_names() {
    assert_eq!(ItemType::TextFile.kind_name(), "TextFile");
    assert_eq!(ItemType::Submenu.kind_name(), "Submenu");
}

#[test]
fn classification_follows_stat() {
    let h = handler("localhost", 70, "/srv");
    assert_eq!(h.get_item_type(Some(true)), Some(ItemType::Submenu));
    assert_eq!(h.get_item_type(Some(false)), Some(ItemType::TextFile));
    assert_eq!(h.get_item_type(None), None);
}

#[test]
fn full_address_joins_host_and_port() {
    let cfg = ServerConfig::new("127.0.0.1", 7070, "/srv");
    assert_eq!(cfg.full_address(), "127.0.0.1:7070");
}

#[test]
fn full_address_renders_extreme_ports() {
    assert_eq!(ServerConfig::new("h", -1, "/srv").full_address(), "h:-1");
    assert_eq!(
        ServerConfig::new("h", i32::MIN, "/srv").full_address(),
        "h:-2147483648"
    );
    assert_eq!(
        ServerConfig::new("h", i32::MAX, "/srv").full_address(),
        "h:2147483647"
    );
}

#[test]
fn zero_pool_size_is_a_config_error() {
    assert_eq!(validate_pool_size(0), Err(ServeError::ConfigError));
    assert_eq!(validate_pool_size(4), Ok(4));
}
