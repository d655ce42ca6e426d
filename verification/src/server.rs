//! The server core: the shared configuration, menu entries and their
//! rendering, and the per-connection handler that turns a resolved selector
//! into a framed response body.
use vstd::prelude::*;
use crate::error::ServeError;
use crate::text::{i32_to_string, spec_int_string, spec_terminator, terminator_str};

verus! {

/// Classification of a filesystem entry: a leaf text item served verbatim, or
/// a submenu (directory) served as a listing.
#[derive(Clone, Copy, PartialEq, Eq, Structural, Debug)]
pub enum ItemType {
    TextFile,
    Submenu,
}

impl ItemType {
    /// The name of this classification, as logs print it.
    pub fn kind_name(&self) -> (r: String)
        ensures
            self is TextFile ==> r@ == "TextFile"@,
            self is Submenu ==> r@ == "Submenu"@,
    {
        match self {
            ItemType::TextFile => String::from_str("TextFile"),
            ItemType::Submenu => String::from_str("Submenu"),
        }
    }
}

/// The digit that encodes an item's type at the head of its menu line.
pub open spec fn spec_kind_char(t: ItemType) -> char {
    match t {
        ItemType::TextFile => '0',
        ItemType::Submenu => '1',
    }
}

/// Immutable server configuration, created once at startup and shared
/// read-only by every connection handler.
#[derive(Clone)]
pub struct ServerConfig {
    pub addr: String,
    pub port: i32,
    pub root: String,
}

/// `addr:port`, the address the listener binds and menu lines advertise.
pub open spec fn spec_full_address(addr: Seq<char>, port: int) -> Seq<char> {
    addr + seq![':'] + spec_int_string(port)
}

impl ServerConfig {
    pub fn new(addr: &str, port: i32, root: &str) -> (cfg: ServerConfig)
        ensures
            cfg.addr@ == addr@,
            cfg.port == port,
            cfg.root@ == root@,
    {
        let addr = String::from_str(addr);
        let root = String::from_str(root);
        ServerConfig { addr, port, root }
    }

    pub fn full_address(&self) -> (r: String)
        ensures
            r@ == spec_full_address(self.addr@, self.port as int),
    {
        let mut r = self.addr.clone();
        r.append(":");
        proof {
            reveal_strlit(":");
        }
        r.append(i32_to_string(self.port).as_str());
        proof {
            assert(r@ =~= spec_full_address(self.addr@, self.port as int));
        }
        r
    }
}

/// The mathematical value of one menu entry.
pub ghost struct MenuItemModel {
    pub item_type: ItemType,
    pub display_name: Seq<char>,
    pub selector: Seq<char>,
    pub addr: Seq<char>,
    pub port: int,
}

/// One entry of a listing: its classification, the name shown to the client,
/// the selector that fetches it on a later request, and the advertised host
/// and port.
pub struct MenuItem {
    pub item_type: ItemType,
    pub display_name: String,
    pub selector: String,
    pub addr: String,
    pub port: i32,
}

impl View for MenuItem {
    type V = MenuItemModel;

    open spec fn view(&self) -> MenuItemModel {
        MenuItemModel {
            item_type: self.item_type,
            display_name: self.display_name@,
            selector: self.selector@,
            addr: self.addr@,
            port: self.port as int,
        }
    }
}

/// The one line that serializes a menu entry: kind digit, display name, then
/// selector, host and port, tab-separated.
pub open spec fn spec_menu_line(m: MenuItemModel) -> Seq<char> {
    seq![spec_kind_char(m.item_type)] + m.display_name + seq!['\t'] + m.selector + seq!['\t']
        + m.addr + seq!['\t'] + spec_int_string(m.port)
}

impl MenuItem {
    pub fn new(
        item_type: ItemType,
        display_name: &str,
        selector: &str,
        addr: &str,
        port: i32,
    ) -> (item: MenuItem)
        ensures
            item@ == (MenuItemModel {
                item_type,
                display_name: display_name@,
                selector: selector@,
                addr: addr@,
                port: port as int,
            }),
    {
        let display_name = String::from_str(display_name);
        let selector = String::from_str(selector);
        let addr = String::from_str(addr);
        MenuItem { item_type, display_name, selector, addr, port }
    }

    /// Serializes this entry as its menu line (without the trailing CRLF).
    pub fn to_response_string(&self) -> (r: String)
        ensures
            r@ == spec_menu_line(self@),
    {
        let mut r = String::new();
        match self.item_type {
            ItemType::TextFile => {
                r.append("0");
                proof {
                    reveal_strlit("0");
                    assert(r@ =~= seq![spec_kind_char(self.item_type)]);
                }
            },
            ItemType::Submenu => {
                r.append("1");
                proof {
                    reveal_strlit("1");
                    assert(r@ =~= seq![spec_kind_char(self.item_type)]);
                }
            },
        }
        r.append(self.display_name.as_str());
        r.append("\t");
        r.append(self.selector.as_str());
        r.append("\t");
        r.append(self.addr.as_str());
        r.append("\t");
        r.append(i32_to_string(self.port).as_str());
        proof {
            reveal_strlit("\t");
            assert(r@ =~= spec_menu_line(self@));
        }
        r
    }
}

/// What classification a stat of one directory child produced: `Some(is_dir)`
/// when its metadata was readable, `None` when it was not.
pub struct ChildStat {
    pub name: String,
    pub is_dir: Option<bool>,
}

/// The classification a stat result maps to: a directory is a submenu,
/// anything else is a text item, unreadable metadata classifies as nothing.
pub open spec fn spec_item_type(stat: Option<bool>) -> Option<ItemType> {
    match stat {
        Option::Some(true) => Option::Some(ItemType::Submenu),
        Option::Some(false) => Option::Some(ItemType::TextFile),
        Option::None => Option::None,
    }
}

/// The menu entry built for one readable child of the listed container:
/// its selector is the container's path followed by the child's name, with a
/// trailing separator when the child is itself a container.
pub open spec fn spec_child_entry(
    path: Seq<char>,
    name: Seq<char>,
    is_dir: bool,
    addr: Seq<char>,
    port: int,
) -> MenuItemModel {
    MenuItemModel {
        item_type: if is_dir {
            ItemType::Submenu
        } else {
            ItemType::TextFile
        },
        display_name: name,
        selector: if is_dir {
            path + name + seq!['/']
        } else {
            path + name
        },
        addr,
        port,
    }
}

/// The entries a listing of `children` produces, in enumeration order;
/// a child whose metadata was unreadable is omitted.
pub open spec fn spec_menu_items(
    path: Seq<char>,
    children: Seq<ChildStat>,
    addr: Seq<char>,
    port: int,
) -> Seq<MenuItemModel>
    decreases children.len(),
{
    if children.len() == 0 {
        Seq::empty()
    } else {
        let rest = spec_menu_items(path, children.drop_last(), addr, port);
        match children.last().is_dir {
            Option::None => rest,
            Option::Some(d) => rest.push(
                spec_child_entry(path, children.last().name@, d, addr, port),
            ),
        }
    }
}

/// A rendered listing: every entry's menu line followed by CRLF, in order.
pub open spec fn spec_menu(items: Seq<MenuItemModel>) -> Seq<char>
    decreases items.len(),
{
    if items.len() == 0 {
        Seq::empty()
    } else {
        spec_menu(items.drop_last()) + spec_menu_line(items.last()) + seq!['\r', '\n']
    }
}

/// The mathematical value of a response plan.
pub ghost enum PlanModel {
    /// Serve the listing of the container at this path below the root.
    Menu { menu_path: Seq<char> },
    /// Serve the contents of the file at this local path.
    File { local_path: Seq<char> },
}

/// What one request resolves to once the target is classified: either the
/// listing of a container or the contents of a file. A selector that names
/// nothing falls back to the listing of the root container.
pub open spec fn spec_plan(
    selector: Seq<char>,
    local_path: Seq<char>,
    item_type: Option<ItemType>,
) -> PlanModel {
    match item_type {
        Option::Some(ItemType::Submenu) => PlanModel::Menu { menu_path: selector },
        Option::Some(ItemType::TextFile) => PlanModel::File { local_path },
        Option::None => PlanModel::Menu { menu_path: Seq::empty() },
    }
}

/// The decision a handler takes for one request: list a container or serve a
/// file.
pub enum ResponsePlan {
    Menu { menu_path: String },
    File { local_path: String },
}

impl View for ResponsePlan {
    type V = PlanModel;

    open spec fn view(&self) -> PlanModel {
        match self {
            ResponsePlan::Menu { menu_path } => PlanModel::Menu { menu_path: menu_path@ },
            ResponsePlan::File { local_path } => PlanModel::File { local_path: local_path@ },
        }
    }
}

/// A carriage return or line feed, the characters a request line's
/// terminator is made of.
pub open spec fn is_line_break(c: char) -> bool {
    c == '\r' || c == '\n'
}

/// A received line with every trailing line-break character removed.
pub open spec fn spec_trim_line(s: Seq<char>) -> Seq<char>
    decreases s.len(),
{
    if s.len() == 0 {
        s
    } else if is_line_break(s.last()) {
        spec_trim_line(s.drop_last())
    } else {
        s
    }
}

/// Strips the line terminator from a received request line: the selector is
/// what precedes the trailing CR and LF characters. The empty selector is a
/// valid request and stays empty.
pub fn trim_request_line(line: &str) -> (r: &str)
    ensures
        r@ == spec_trim_line(line@),
{
    let len: usize = line.unicode_len();
    let mut end: usize = len;
    proof {
        assert(line@.subrange(0, len as int) =~= line@);
    }
    while end > 0 && (line.get_char(end - 1) == '\r' || line.get_char(end - 1) == '\n')
        invariant
            end <= len,
            len == line@.len(),
            spec_trim_line(line@) == spec_trim_line(line@.subrange(0, end as int)),
        decreases end,
    {
        proof {
            let prefix = line@.subrange(0, end as int);
            assert(prefix.last() == line@[end - 1]);
            assert(prefix.drop_last() =~= line@.subrange(0, end - 1));
        }
        end = end - 1;
    }
    let r = line.substring_char(0, end);
    proof {
        let prefix = line@.subrange(0, end as int);
        if end > 0 {
            assert(prefix.last() == line@[end - 1]);
        }
        assert(spec_trim_line(prefix) == prefix);
    }
    r
}

/// Appends the protocol terminator to a finished response body.
pub fn finish_response(body: String) -> (r: String)
    ensures
        r@ == body@ + spec_terminator(),
{
    let mut r = body;
    r.append(terminator_str());
    r
}

/// Handles one request/response cycle over the shared configuration.
pub struct ConnectionHandler {
    pub cfg: ServerConfig,
}

impl ConnectionHandler {
    pub fn new(cfg: ServerConfig) -> (h: ConnectionHandler)
        ensures
            h.cfg == cfg,
    {
        ConnectionHandler { cfg }
    }

    /// Classifies a stat result: directories are submenus, everything else is
    /// a text item.
    pub fn get_item_type(&self, stat: Option<bool>) -> (t: Option<ItemType>)
        ensures
            t == spec_item_type(stat),
    {
        match stat {
            Option::Some(true) => Option::Some(ItemType::Submenu),
            Option::Some(false) => Option::Some(ItemType::TextFile),
            Option::None => Option::None,
        }
    }

    /// Builds the menu entries for the container at `path`, given the stat of
    /// each of its children in enumeration order. A child whose metadata
    /// could not be read is skipped; the listing itself goes on.
    pub fn build_menu_items(&self, path: String, children: Vec<ChildStat>) -> (items: Vec<
        MenuItem,
    >)
        ensures
            items@.map_values(|m: MenuItem| m@) == spec_menu_items(
                path@,
                children@,
                self.cfg.addr@,
                self.cfg.port as int,
            ),
    {
        let mut items: Vec<MenuItem> = Vec::new();
        proof {
            assert(items@.map_values(|m: MenuItem| m@) =~= spec_menu_items(
                path@,
                children@.subrange(0, 0),
                self.cfg.addr@,
                self.cfg.port as int,
            ));
        }
        let n = children.len();
        let mut i: usize = 0;
        while i < n
            invariant
                n == children@.len(),
                i <= n,
                items@.map_values(|m: MenuItem| m@) == spec_menu_items(
                    path@,
                    children@.subrange(0, i as int),
                    self.cfg.addr@,
                    self.cfg.port as int,
                ),
            decreases n - i,
        {
            let child = &children[i];
            let item_type = self.get_item_type(child.is_dir);
            if let Option::Some(t) = item_type {
                let mut selector = path.clone();
                selector.append(child.name.as_str());
                if t == ItemType::Submenu {
                    selector.append("/");
                    proof {
                        reveal_strlit("/");
                    }
                }
                let item = MenuItem::new(
                    t,
                    child.name.as_str(),
                    selector.as_str(),
                    self.cfg.addr.as_str(),
                    self.cfg.port,
                );
                items.push(item);
                proof {
                    let f = |m: MenuItem| m@;
                    let prefix = children@.subrange(0, i + 1 as int);
                    assert(prefix.drop_last() =~= children@.subrange(0, i as int));
                    assert(prefix.last() == children@[i as int]);
                    assert(item@.selector =~= if t == ItemType::Submenu {
                        path@ + child.name@ + seq!['/']
                    } else {
                        path@ + child.name@
                    });
                    assert(item@ == spec_child_entry(
                        path@,
                        child.name@,
                        t == ItemType::Submenu,
                        self.cfg.addr@,
                        self.cfg.port as int,
                    ));
                    assert(items@.map_values(f) =~= spec_menu_items(
                        path@,
                        prefix,
                        self.cfg.addr@,
                        self.cfg.port as int,
                    ));
                }
            } else {
                proof {
                    let prefix = children@.subrange(0, i + 1 as int);
                    assert(prefix.drop_last() =~= children@.subrange(0, i as int));
                    assert(prefix.last() == children@[i as int]);
                    assert(items@.map_values(|m: MenuItem| m@) =~= spec_menu_items(
                        path@,
                        prefix,
                        self.cfg.addr@,
                        self.cfg.port as int,
                    ));
                }
            }
            i = i + 1;
        }
        proof {
            assert(children@.subrange(0, n as int) =~= children@);
        }
        items
    }

    /// Renders menu entries as one response body: every entry's line followed
    /// by CRLF.
    pub fn output_menu(&self, items: Vec<MenuItem>) -> (r: String)
        ensures
            r@ == spec_menu(items@.map_values(|m: MenuItem| m@)),
    {
        let mut menu = String::new();
        proof {
            assert(menu@ =~= spec_menu(items@.subrange(0, 0).map_values(|m: MenuItem| m@)));
        }
        let n = items.len();
        let mut i: usize = 0;
        while i < n
            invariant
                n == items@.len(),
                i <= n,
                menu@ == spec_menu(items@.subrange(0, i as int).map_values(|m: MenuItem| m@)),
            decreases n - i,
        {
            let line = items[i].to_response_string();
            menu.append(line.as_str());
            menu.append("\r\n");
            proof {
                reveal_strlit("\r\n");
                let f = |m: MenuItem| m@;
                let prefix = items@.subrange(0, i + 1 as int).map_values(f);
                assert(items@.subrange(0, i + 1 as int).drop_last() =~= items@.subrange(
                    0,
                    i as int,
                ));
                assert(prefix.drop_last() =~= items@.subrange(0, i as int).map_values(f));
                assert(prefix.last() == items@[i as int]@);
                assert(menu@ =~= spec_menu(prefix));
            }
            i = i + 1;
        }
        proof {
            assert(items@.subrange(0, n as int) =~= items@);
        }
        menu
    }

    /// Builds the complete, terminated response for the container at `path`,
    /// given the stat of each of its children.
    pub fn menu_response(&self, path: String, children: Vec<ChildStat>) -> (r: String)
        ensures
            r@ == spec_menu(
                spec_menu_items(path@, children@, self.cfg.addr@, self.cfg.port as int),
            ) + spec_terminator(),
    {
        let items = self.build_menu_items(path, children);
        let body = self.output_menu(items);
        finish_response(body)
    }

    /// Builds the complete, terminated response for a file served verbatim.
    pub fn content_response(&self, contents: String) -> (r: String)
        ensures
            r@ == contents@ + spec_terminator(),
    {
        finish_response(contents)
    }

    /// Decides what one request is answered with, from the selector it sent
    /// and the classification of the path it resolved to: a submenu is
    /// listed under the selector itself, a text item is served from its
    /// local path, and a selector that named nothing falls back to the
    /// listing of the root container.
    pub fn plan_response(
        &self,
        selector: &str,
        local_path: String,
        item_type: Option<ItemType>,
    ) -> (p: ResponsePlan)
        ensures
            p@ == spec_plan(selector@, local_path@, item_type),
    {
        match item_type {
            Option::Some(ItemType::Submenu) => ResponsePlan::Menu {
                menu_path: String::from_str(selector),
            },
            Option::Some(ItemType::TextFile) => ResponsePlan::File { local_path },
            Option::None => {
                let empty = String::new();
                proof {
                    assert(empty@ =~= Seq::<char>::empty());
                }
                ResponsePlan::Menu { menu_path: empty }
            },
        }
    }
}

/// A rendered listing is exactly the concatenation, in order, of one
/// well-formed line per entry, each line followed by CRLF.
pub proof fn lemma_menu_is_line_sequence(items: Seq<MenuItemModel>)
    ensures
        spec_menu(items) == items.map_values(
            |m: MenuItemModel| spec_menu_line(m) + seq!['\r', '\n'],
        ).flatten_alt(),
    decreases items.len(),
{
    let f = |m: MenuItemModel| spec_menu_line(m) + seq!['\r', '\n'];
    let lines = items.map_values(f);
    if items.len() == 0 {
        assert(lines =~= Seq::<Seq<char>>::empty());
        assert(spec_menu(items) =~= lines.flatten_alt());
    } else {
        lemma_menu_is_line_sequence(items.drop_last());
        assert(items.drop_last().map_values(f) =~= lines.drop_last());
        assert(lines.last() == f(items.last()));
        assert(spec_menu(items) =~= lines.flatten_alt());
    }
}

/// A selector that resolves to nothing is answered exactly as the empty
/// selector is: both plans are the listing of the root container, whatever
/// local paths they resolved to.
pub proof fn lemma_missing_selector_falls_back_to_root(
    selector: Seq<char>,
    local_path: Seq<char>,
    root_local_path: Seq<char>,
)
    ensures
        spec_plan(selector, local_path, Option::None) == spec_plan(
            Seq::empty(),
            root_local_path,
            Option::Some(ItemType::Submenu),
        ),
{
}

/// The empty selector is answered with the listing of the root container.
pub proof fn lemma_empty_selector_serves_root(local_path: Seq<char>)
    ensures
        spec_plan(Seq::empty(), local_path, Option::Some(ItemType::Submenu)) == (PlanModel::Menu {
            menu_path: Seq::empty(),
        }),
{
}

/// The response a forbidden selector receives: an empty listing, that is,
/// the bare terminator. No path is resolved and no file is touched for it.
pub fn forbidden_response() -> (r: String)
    ensures
        r@ == spec_terminator(),
{
    let body = String::new();
    proof {
        assert(body@ + spec_terminator() =~= spec_terminator());
    }
    finish_response(body)
}

/// A worker pool must have at least one worker; any other size is accepted
/// unchanged.
pub fn validate_pool_size(size: usize) -> (r: Result<usize, ServeError>)
    ensures
        r is Ok <==> size > 0,
        (r matches Ok(n) ==> n == size),
        (r matches Err(e) ==> e == ServeError::ConfigError),
{
    if size == 0 {
        Err(ServeError::ConfigError)
    } else {
        Ok(size)
    }
}

} // verus!
