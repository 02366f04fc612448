use rusty_shorty::role::Role;

#[test]
fn role_level_orders_roles() {
    assert_eq!(Role::Root.level(), 2);
    assert_eq!(Role::User.level(), 1);
    assert_eq!(Role::Visitor.level(), 0);
    assert!(Role::Visitor < Role::User);
    assert!(Role::User < Role::Root);
}
