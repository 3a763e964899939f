//! The pages of the front end and the sidebar that links them.
use vstd::prelude::*;

verus! {

/// A page of the front end.
#[derive(Debug, Clone, Copy, PartialEq, Eq, Structural)]
pub enum Page {
    Home,
    Categories,
    CreateCategory,
}

/// The route of each page.
pub open spec fn page_route(p: Page) -> Seq<char> {
    match p {
        Page::Home => "/frontend/home"@,
        Page::Categories => "/frontend/categories"@,
        Page::CreateCategory => "/frontend/createCategory"@,
    }
}

impl Page {
    /// The route under which the page is served.
    pub fn get_route(&self) -> (r: &'static str)
        ensures
            r@ == page_route(*self),
    {
        match self {
            Page::Home => "/frontend/home",
            Page::Categories => "/frontend/categories",
            Page::CreateCategory => "/frontend/createCategory",
        }
    }
}

/// An entry of the sidebar, possibly with sub-entries.
pub struct SidebarItem {
    pub page: Page,
    pub icon: &'static str,
    pub title: &'static str,
    pub children: &'static [SidebarItem],
}

impl SidebarItem {
    /// The CSS class of the entry when `page` is shown: `active` for the
    /// entry's own page, nothing otherwise.
    pub fn active(&self, page: &Page) -> (r: &'static str)
        ensures
            r@ == if self.page == *page {
                "active"@
            } else {
                ""@
            },
    {
        if self.page == *page {
            return "active";
        }
        ""
    }
}

/// The sidebar of the main layout, with the page that is shown.
pub struct Sidebar {
    pub current_page: Page,
    pub items: &'static [SidebarItem],
}

/// `s` is the standard sidebar (a dashboard entry and a categories entry with
/// two sub-entries) showing `page`.
pub open spec fn is_standard_sidebar(s: Sidebar, page: Page) -> bool {
    &&& s.current_page == page
    &&& s.items@.len() == 2
    &&& s.items@[0].page == Page::Home
    &&& s.items@[0].icon@ == "monitor"@
    &&& s.items@[0].title@ == "Dashboard"@
    &&& s.items@[0].children@.len() == 0
    &&& s.items@[1].page == Page::Categories
    &&& s.items@[1].icon@ == "list"@
    &&& s.items@[1].title@ == "الاقسام"@
    &&& s.items@[1].children@.len() == 2
    &&& s.items@[1].children@[0].page == Page::Categories
    &&& s.items@[1].children@[0].icon@ == ""@
    &&& s.items@[1].children@[0].title@ == "جميع الاقسام"@
    &&& s.items@[1].children@[0].children@.len() == 0
    &&& s.items@[1].children@[1].page == Page::CreateCategory
    &&& s.items@[1].children@[1].icon@ == ""@
    &&& s.items@[1].children@[1].title@ == "انشاء قسم"@
    &&& s.items@[1].children@[1].children@.len() == 0
}

impl Sidebar {
    /// The standard sidebar, showing the home page.
    pub fn default() -> (r: Sidebar)
        ensures
            is_standard_sidebar(r, Page::Home),
    {
        Sidebar {
            current_page: Page::Home,
            items: &[
                SidebarItem { page: Page::Home, icon: "monitor", title: "Dashboard", children: &[] },
                SidebarItem {
                    page: Page::Categories,
                    icon: "list",
                    title: "الاقسام",
                    children: &[
                        SidebarItem {
                            page: Page::Categories,
                            icon: "",
                            title: "جميع الاقسام",
                            children: &[],
                        },
                        SidebarItem {
                            page: Page::CreateCategory,
                            icon: "",
                            title: "انشاء قسم",
                            children: &[],
                        },
                    ],
                },
            ],
        }
    }
}

/// The page that a sidebar title names: the dashboard is the home page, the
/// categories entry and its "all categories" sub-entry are the categories
/// page, and "create category" is the page that creates one.
pub open spec fn page_named_by(title: Seq<char>) -> Option<Page> {
    if title == "Dashboard"@ {
        Some(Page::Home)
    } else if title == "الاقسام"@ || title == "جميع الاقسام"@ {
        Some(Page::Categories)
    } else if title == "انشاء قسم"@ {
        Some(Page::CreateCategory)
    } else {
        None
    }
}

/// Every entry of the standard sidebar, and every sub-entry, links to the
/// page its title names; the "all categories" sub-entry links to the page of
/// its parent, and the "create category" sub-entry to another page.
pub proof fn law_sidebar_entries_link_to_their_pages(s: Sidebar, page: Page)
    requires
        is_standard_sidebar(s, page),
    ensures
        page_named_by(s.items@[0].title@) == Some(s.items@[0].page),
        page_named_by(s.items@[1].title@) == Some(s.items@[1].page),
        page_named_by(s.items@[1].children@[0].title@) == Some(s.items@[1].children@[0].page),
        page_named_by(s.items@[1].children@[1].title@) == Some(s.items@[1].children@[1].page),
        s.items@[1].children@[0].page == s.items@[1].page,
        s.items@[1].children@[1].page != s.items@[1].page,
{
    reveal_strlit("Dashboard");
    reveal_strlit("الاقسام");
    reveal_strlit("جميع الاقسام");
    reveal_strlit("انشاء قسم");
    assert("الاقسام"@ != "Dashboard"@) by {
        assert("الاقسام"@.len() != "Dashboard"@.len());
    }
    assert("جميع الاقسام"@ != "Dashboard"@) by {
        assert("جميع الاقسام"@.len() != "Dashboard"@.len());
    }
    assert("انشاء قسم"@ != "Dashboard"@) by {
        assert("انشاء قسم"@[0] != "Dashboard"@[0]);
    }
    assert("انشاء قسم"@ != "الاقسام"@) by {
        assert("انشاء قسم"@.len() != "الاقسام"@.len());
    }
    assert("انشاء قسم"@ != "جميع الاقسام"@) by {
        assert("انشاء قسم"@.len() != "جميع الاقسام"@.len());
    }
}

/// Each page has a route of its own.
pub proof fn law_routes_are_distinct(p: Page, q: Page)
    requires
        p != q,
    ensures
        page_route(p) != page_route(q),
{
    reveal_strlit("/frontend/home");
    reveal_strlit("/frontend/categories");
    reveal_strlit("/frontend/createCategory");
    let a = page_route(p);
    let b = page_route(q);
    if a.len() == b.len() {
        assert(a[11] != b[11] || a[10] != b[10]);
    }
}

} // verus!
