use vstd::prelude::*;
use crate::role::Role;
use crate::text::owned;

verus! {

/// An entry of the side navigation, shown to users ranked at least `role`.
#[derive(Debug)]
pub struct NavigationItem {
    pub name: String,
    pub url: String,
    pub tag: String,
    pub locale: String,
    pub role: Role,
    /// The name of the icon's asset.
    pub icon: String,
}

/// The content of a navigation entry: name, url, tag, translation key, role, icon.
pub open spec fn item_view(i: NavigationItem) -> (Seq<char>, Seq<char>, Seq<char>, Seq<char>, Role, Seq<char>) {
    (i.name@, i.url@, i.tag@, i.locale@, i.role, i.icon@)
}

/// The entries of the side navigation, in order.
pub open spec fn navigation_spec() -> Seq<(Seq<char>, Seq<char>, Seq<char>, Seq<char>, Role, Seq<char>)> {
    seq![
        ("Home"@, "/"@, "id-tag-home"@, "top-navigation-home"@, Role::Visitor, "icon/home.svg"@),
        ("User"@, "/user"@, "id-tag-user"@, "top-navigation-user"@, Role::User, "icon/users.svg"@),
        ("Stack"@, "/stack"@, "id-tag-stack"@, "top-navigation-stack"@, Role::Root, "icon/exclamation_circle.svg"@),
    ]
}

impl NavigationItem {
    /// The entries of the side navigation.
    pub fn navigations() -> (v: Vec<NavigationItem>)
        ensures
            v@.len() == navigation_spec().len(),
            forall|i: int| 0 <= i < v@.len() ==> item_view(#[trigger] v@[i]) == navigation_spec()[i],
    {
        let v = vec![
            NavigationItem {
                name: owned("Home"),
                url: owned("/"),
                tag: owned("id-tag-home"),
                locale: owned("top-navigation-home"),
                role: Role::Visitor,
                icon: owned("icon/home.svg"),
            },
            NavigationItem {
                name: owned("User"),
                url: owned("/user"),
                tag: owned("id-tag-user"),
                locale: owned("top-navigation-user"),
                role: Role::User,
                icon: owned("icon/users.svg"),
            },
            NavigationItem {
                name: owned("Stack"),
                url: owned("/stack"),
                tag: owned("id-tag-stack"),
                locale: owned("top-navigation-stack"),
                role: Role::Root,
                icon: owned("icon/exclamation_circle.svg"),
            },
        ];
        assert(item_view(v@[0]) == navigation_spec()[0]);
        assert(item_view(v@[1]) == navigation_spec()[1]);
        assert(item_view(v@[2]) == navigation_spec()[2]);
        v
    }
}

} // verus!
