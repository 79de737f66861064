use row_identity::{ColumnTrait, EntityTrait, IdenStatic, Identity, IdentityOf, IntoIdentity};

struct User;

#[derive(Clone, Copy)]
enum UserColumn {
    Id,
    Email,
}

impl IdenStatic for UserColumn {
    fn as_str(&self) -> &'static str {
        match self {
            UserColumn::Id => "id",
            UserColumn::Email => "email",
        }
    }
}

impl ColumnTrait for UserColumn {}

impl EntityTrait for User {
    type Column = UserColumn;
}

struct Post;

#[derive(Clone, Copy)]
enum PostColumn {
    Title,
}

impl IdenStatic for PostColumn {
    fn as_str(&self) -> &'static str {
        match self {
            PostColumn::Title => "title",
        }
    }
}

impl ColumnTrait for PostColumn {}

impl EntityTrait for Post {
    type Column = PostColumn;
}

#[test]
fn str_conversion_renders_the_name() {
    let i = "hello".into_identity();
    assert!(matches!(i, Identity::Unary(_)));
    assert_eq!(i.unquoted(), "hello");
}

#[test]
fn string_and_str_conversions_agree() {
    let owned = String::from("hello").into_identity();
    let borrowed = "hello".into_identity();
    assert_eq!(owned.unquoted(), "hello");
    assert_eq!(owned.unquoted(), borrowed.unquoted());
}

#[test]
fn empty_name_renders_empty() {
    let i = "".into_identity();
    assert!(matches!(i, Identity::Unary(_)));
    assert_eq!(i.unquoted(), "");
}

#[test]
fn named_value_converts_to_unary() {
    let i = UserColumn::Email.into_identity();
    assert!(matches!(i, Identity::Unary(_)));
    assert_eq!(i.unquoted(), "email");
}

#[test]
fn pair_converts_to_binary_in_order() {
    let i = (UserColumn::Id, UserColumn::Email).into_identity();
    assert!(matches!(i, Identity::Binary(_, _)));
    assert_eq!(i.unquoted(), "idemail");
}

#[test]
fn pair_conversion_is_order_sensitive() {
    let ab = (UserColumn::Id, UserColumn::Email).into_identity();
    let ba = (UserColumn::Email, UserColumn::Id).into_identity();
    assert_eq!(ba.unquoted(), "emailid");
    assert_ne!(ab.unquoted(), ba.unquoted());
}

#[test]
fn mixed_pair_converts_across_column_types() {
    let i = (UserColumn::Id, PostColumn::Title).into_identity();
    assert_eq!(i.unquoted(), "idtitle");
}

#[test]
fn triple_converts_to_ternary_in_order() {
    let i = (UserColumn::Id, UserColumn::Email, UserColumn::Id).into_identity();
    assert!(matches!(i, Identity::Ternary(_, _, _)));
    assert_eq!(i.unquoted(), "idemailid");
}

#[test]
fn render_is_idempotent() {
    let i = (UserColumn::Id, UserColumn::Email).into_identity();
    let first = i.unquoted();
    let second = i.unquoted();
    assert_eq!(first, second);
}

#[test]
fn entity_bound_single_column() {
    let i: Identity = IdentityOf::<User>::identity_of(UserColumn::Id);
    assert!(matches!(i, Identity::Unary(_)));
    assert_eq!(i.unquoted(), "id");
}

#[test]
fn entity_bound_pair_matches_generic_conversion() {
    let bound: Identity = IdentityOf::<User>::identity_of((UserColumn::Id, UserColumn::Email));
    let generic = (UserColumn::Id, UserColumn::Email).into_identity();
    assert!(matches!(bound, Identity::Binary(_, _)));
    assert_eq!(bound.unquoted(), "idemail");
    assert_eq!(bound.unquoted(), generic.unquoted());
}

#[test]
fn entity_bound_triple_column() {
    let i: Identity = IdentityOf::<User>::identity_of((
        UserColumn::Id,
        UserColumn::Email,
        UserColumn::Id,
    ));
    assert!(matches!(i, Identity::Ternary(_, _, _)));
    assert_eq!(i.unquoted(), "idemailid");
}
