//! The page table of the host UI and the navigation state.
//!
//! The pages themselves are static data: one main menu and one text page
//! per tool. Rendering is outside this crate; here live the table and the
//! small navigation rules (current page, menu pagination, selected device).

use vstd::prelude::*;

verus! {

/// One entry of a menu page.
pub struct MenuItem {
    pub icon: Option<&'static str>,
    pub label: String,
    pub target_page: usize,
}

/// What one page shows: a titled menu of items, or a titled block of text.
pub enum PageContent {
    Menu { title: String, items: Vec<MenuItem> },
    Text { title: String, content: String },
}

/// A menu entry as mathematical values.
pub struct MenuItemSpec {
    pub icon: Option<Seq<char>>,
    pub label: Seq<char>,
    pub target_page: int,
}

/// A page as mathematical values.
pub enum PageContentSpec {
    Menu { title: Seq<char>, items: Seq<MenuItemSpec> },
    Text { title: Seq<char>, content: Seq<char> },
}

impl View for MenuItem {
    type V = MenuItemSpec;

    open spec fn view(&self) -> MenuItemSpec {
        MenuItemSpec {
            icon: match self.icon {
                Some(s) => Some(s@),
                None => None,
            },
            label: self.label@,
            target_page: self.target_page as int,
        }
    }
}

impl View for PageContent {
    type V = PageContentSpec;

    open spec fn view(&self) -> PageContentSpec {
        match self {
            PageContent::Menu { title, items } => PageContentSpec::Menu {
                title: title@,
                items: items@.map_values(|it: MenuItem| it@),
            },
            PageContent::Text { title, content } => PageContentSpec::Text {
                title: title@,
                content: content@,
            },
        }
    }
}

/// A menu entry of the main menu.
pub open spec fn spec_menu_entry(icon: Seq<char>, label: Seq<char>, target: int) -> MenuItemSpec {
    MenuItemSpec { icon: Some(icon), label: label, target_page: target }
}

/// A placeholder text page.
pub open spec fn spec_text_page(title: Seq<char>) -> PageContentSpec {
    PageContentSpec::Text { title: title, content: "Placeholder..."@ }
}

/// The main menu's entries, in display order.
pub open spec fn spec_main_menu_items() -> Seq<MenuItemSpec> {
    seq![
        spec_menu_entry("\u{1F534}"@, "Infrared"@, 1),
        spec_menu_entry("\u{1F4FB}"@, "Sub-GHz"@, 2),
        spec_menu_entry("\u{1F50C}"@, "GPIO"@, 3),
        spec_menu_entry("\u{1F527}"@, "NRF Tools"@, 4),
        spec_menu_entry("\u{1F4F6}"@, "WiFi"@, 5),
        spec_menu_entry("\u{1F535}"@, "BLE"@, 6),
        spec_menu_entry("\u{1F4C1}"@, "Files"@, 7),
        spec_menu_entry("\u{1F4E6}"@, "Apps"@, 8),
        spec_menu_entry("\u{2699}\u{FE0F}"@, "Settings"@, 9),
        spec_menu_entry("\u{1F4F3}"@, "NFC"@, 10),
        spec_menu_entry("\u{1F480}"@, "Bad USB"@, 11),
        spec_menu_entry("\u{1F4E1}"@, "Cell Signal Scanning"@, 12),
        spec_menu_entry("\u{1F575}\u{FE0F}"@, "Android WiFi Snooping"@, 13),
        spec_menu_entry("\u{1F575}\u{FE0F}"@, "Bluetooth Snooping"@, 14),
        spec_menu_entry("\u{1F50E}"@, "NFC Raw Signal Reader"@, 15),
    ]
}

/// The page shown for an index: the main menu at 0, one tool page per index
/// up to 15, a fallback text page beyond.
pub open spec fn spec_page(idx: int) -> PageContentSpec {
    if idx == 0 {
        PageContentSpec::Menu { title: "SharkOS Main Menu"@, items: spec_main_menu_items() }
    } else if idx == 1 {
        spec_text_page("Infrared"@)
    } else if idx == 2 {
        spec_text_page("Sub-GHz"@)
    } else if idx == 3 {
        spec_text_page("GPIO"@)
    } else if idx == 4 {
        spec_text_page("NRF Tools"@)
    } else if idx == 5 {
        spec_text_page("WiFi"@)
    } else if idx == 6 {
        spec_text_page("BLE"@)
    } else if idx == 7 {
        spec_text_page("Files"@)
    } else if idx == 8 {
        spec_text_page("Apps"@)
    } else if idx == 9 {
        spec_text_page("Settings"@)
    } else if idx == 10 {
        spec_text_page("NFC"@)
    } else if idx == 11 {
        spec_text_page("Bad USB"@)
    } else if idx == 12 {
        spec_text_page("Cell Signal Scanning"@)
    } else if idx == 13 {
        spec_text_page("Android WiFi Snooping"@)
    } else if idx == 14 {
        spec_text_page("Bluetooth Snooping"@)
    } else if idx == 15 {
        spec_text_page("NFC Raw Signal Reader"@)
    } else {
        PageContentSpec::Text { title: "SharkOS"@, content: "Placeholder"@ }
    }
}

fn menu_entry(icon: &'static str, label: &str, target: usize) -> (r: MenuItem)
    ensures
        r@ == spec_menu_entry(icon@, label@, target as int),
{
    MenuItem { icon: Some(icon), label: String::from_str(label), target_page: target }
}

fn text_page(title: &str) -> (r: PageContent)
    ensures
        r@ == spec_text_page(title@),
{
    let r = PageContent::Text {
        title: String::from_str(title),
        content: String::from_str("Placeholder..."),
    };
    r
}

/// The page table, per `spec_page`.
pub fn get_page(idx: usize) -> (r: PageContent)
    ensures
        r@ == spec_page(idx as int),
{
    if idx == 0 {
        let mut items: Vec<MenuItem> = Vec::new();
        items.push(menu_entry("\u{1F534}", "Infrared", 1));
        items.push(menu_entry("\u{1F4FB}", "Sub-GHz", 2));
        items.push(menu_entry("\u{1F50C}", "GPIO", 3));
        items.push(menu_entry("\u{1F527}", "NRF Tools", 4));
        items.push(menu_entry("\u{1F4F6}", "WiFi", 5));
        items.push(menu_entry("\u{1F535}", "BLE", 6));
        items.push(menu_entry("\u{1F4C1}", "Files", 7));
        items.push(menu_entry("\u{1F4E6}", "Apps", 8));
        items.push(menu_entry("\u{2699}\u{FE0F}", "Settings", 9));
        items.push(menu_entry("\u{1F4F3}", "NFC", 10));
        items.push(menu_entry("\u{1F480}", "Bad USB", 11));
        items.push(menu_entry("\u{1F4E1}", "Cell Signal Scanning", 12));
        items.push(menu_entry("\u{1F575}\u{FE0F}", "Android WiFi Snooping", 13));
        items.push(menu_entry("\u{1F575}\u{FE0F}", "Bluetooth Snooping", 14));
        items.push(menu_entry("\u{1F50E}", "NFC Raw Signal Reader", 15));
        let r = PageContent::Menu { title: String::from_str("SharkOS Main Menu"), items };
        proof {
            assert(r@->Menu_items =~= spec_main_menu_items());
        }
        r
    } else if idx == 1 {
        text_page("Infrared")
    } else if idx == 2 {
        text_page("Sub-GHz")
    } else if idx == 3 {
        text_page("GPIO")
    } else if idx == 4 {
        text_page("NRF Tools")
    } else if idx == 5 {
        text_page("WiFi")
    } else if idx == 6 {
        text_page("BLE")
    } else if idx == 7 {
        text_page("Files")
    } else if idx == 8 {
        text_page("Apps")
    } else if idx == 9 {
        text_page("Settings")
    } else if idx == 10 {
        text_page("NFC")
    } else if idx == 11 {
        text_page("Bad USB")
    } else if idx == 12 {
        text_page("Cell Signal Scanning")
    } else if idx == 13 {
        text_page("Android WiFi Snooping")
    } else if idx == 14 {
        text_page("Bluetooth Snooping")
    } else if idx == 15 {
        text_page("NFC Raw Signal Reader")
    } else {
        PageContent::Text {
            title: String::from_str("SharkOS"),
            content: String::from_str("Placeholder"),
        }
    }
}

/// The menu grid layout: items fill columns of two rows each, four columns
/// are visible per page.
pub struct MenuLayout {
    pub columns: usize,
    pub pages: usize,
    pub current_page: usize,
    pub start_col: usize,
    pub end_col: usize,
}

/// Computes the grid layout for a menu of `item_count` entries when page
/// `requested_page` is asked for: the column and page counts, the page
/// actually shown (clamped to the last one), and the visible column range.
pub fn menu_layout(item_count: usize, requested_page: usize) -> (r: MenuLayout)
    requires
        item_count < usize::MAX,
    ensures
        r.columns == (item_count + 1) / 2,
        r.pages == (r.columns + 3) / 4,
        r.current_page == (if r.pages == 0 {
            0int
        } else if requested_page < r.pages {
            requested_page as int
        } else {
            r.pages - 1
        }),
        r.start_col == r.current_page * 4,
        r.end_col == (if r.start_col + 4 < r.columns {
            r.start_col + 4
        } else {
            r.columns as int
        }),
        r.end_col <= r.columns,
        r.end_col - r.start_col <= 4,
        r.pages > 0 ==> r.current_page < r.pages,
{
    let columns = (item_count + 1) / 2;
    let pages = (columns + 3) / 4;
    let current_page = if pages == 0 {
        0
    } else if requested_page < pages {
        requested_page
    } else {
        pages - 1
    };
    let start_col = current_page * 4;
    let end_col = if start_col + 4 < columns {
        start_col + 4
    } else {
        columns
    };
    MenuLayout { columns, pages, current_page, start_col, end_col }
}

/// The navigation state: current page index, menu pagination index, and the
/// device the user selected.
pub struct MenuState {
    pub menu: usize,
    pub menu_page: usize,
    pub selected_device: Option<String>,
}

impl MenuState {
    /// The initial navigation state: the main menu, first page, no device.
    pub fn new() -> (r: MenuState)
        ensures
            r.menu == 0,
            r.menu_page == 0,
            r.selected_device is None,
    {
        MenuState { menu: 0, menu_page: 0, selected_device: None }
    }
}

/// Shows page `idx`.
pub fn set_menu(st: &mut MenuState, idx: usize)
    ensures
        final(st).menu == idx,
        final(st).menu_page == old(st).menu_page,
        final(st).selected_device == old(st).selected_device,
{
    st.menu = idx;
}

/// The page currently shown.
pub fn get_menu(st: &MenuState) -> (r: usize)
    ensures
        r == st.menu,
{
    st.menu
}

/// Records the device the user selected.
pub fn set_selected_device(st: &mut MenuState, device: String)
    ensures
        final(st).selected_device == Some(device),
        final(st).menu == old(st).menu,
        final(st).menu_page == old(st).menu_page,
{
    st.selected_device = Some(device);
}

/// The device the user selected, if any.
pub fn get_selected_device(st: &MenuState) -> (r: Option<String>)
    ensures
        r == st.selected_device,
{
    st.selected_device.clone()
}

/// The menu pagination index.
pub fn get_menu_page(st: &MenuState) -> (r: usize)
    ensures
        r == st.menu_page,
{
    st.menu_page
}

/// Jumps the menu pagination to `p`.
pub fn set_menu_page(st: &mut MenuState, p: usize)
    ensures
        final(st).menu_page == p,
        final(st).menu == old(st).menu,
        final(st).selected_device == old(st).selected_device,
{
    st.menu_page = p;
}

/// Advances the menu pagination, clamped to the last page; does nothing
/// when there are no pages.
pub fn next_menu_page(st: &mut MenuState, total_pages: usize)
    ensures
        final(st).menu == old(st).menu,
        final(st).selected_device == old(st).selected_device,
        total_pages == 0 ==> final(st).menu_page == old(st).menu_page,
        total_pages > 0 ==> final(st).menu_page == (if old(st).menu_page + 1 < total_pages {
            old(st).menu_page + 1
        } else {
            (total_pages - 1) as int
        }),
{
    if total_pages == 0 {
        return ;
    }
    if st.menu_page < total_pages - 1 {
        st.menu_page = st.menu_page + 1;
    } else {
        st.menu_page = total_pages - 1;
    }
}

/// Steps the menu pagination back, stopping at the first page.
pub fn prev_menu_page(st: &mut MenuState)
    ensures
        final(st).menu == old(st).menu,
        final(st).selected_device == old(st).selected_device,
        final(st).menu_page == (if old(st).menu_page > 0 {
            old(st).menu_page - 1
        } else {
            0int
        }),
{
    if st.menu_page > 0 {
        st.menu_page = st.menu_page - 1;
    }
}

} // verus!
