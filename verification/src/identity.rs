use vstd::prelude::*;
use vstd::string::StringExecFns;

verus! {

/// A value that statically knows its own bare identifier text, such as a
/// column of a table whose name is fixed at compile time.
pub trait IdenStatic: Sized {
    /// The bare (unquoted) identifier text that this value names. An
    /// implementation that leaves the default in place names some fixed
    /// but unspecified text; [`as_str`](IdenStatic::as_str) returns that
    /// text either way.
    open spec fn spec_name(&self) -> Seq<char> {
        arbitrary()
    }

    /// Returns the bare identifier text of this value.
    fn as_str(&self) -> (r: &'static str)
        ensures
            r@ == self.spec_name(),
    ;
}

/// An entity schema: a declaration that ties one column type to one
/// logical table or record type.
pub trait EntityTrait {
    /// The type whose values are the columns declared on this entity.
    type Column: ColumnTrait;
}

/// A named identifier value declared as a column of some entity's schema.
pub trait ColumnTrait: IdenStatic {
}

/// A row's identifying key: one, two or three identifier parts, in order.
///
/// The arity is fixed at construction; the parts keep exactly the order in
/// which they were supplied, with no sorting, deduplication or validation.
#[derive(Debug, Clone)]
pub enum Identity {
    Unary(String),
    Binary(String, String),
    Ternary(String, String, String),
}

impl Identity {
    /// The bare texts of the identifier parts, in the order supplied.
    pub open spec fn parts(self) -> Seq<Seq<char>> {
        match self {
            Identity::Unary(a) => seq![a@],
            Identity::Binary(a, b) => seq![a@, b@],
            Identity::Ternary(a, b, c) => seq![a@, b@, c@],
        }
    }

    /// The rendered text: the concatenation of the parts, in order, with
    /// no separators and no quoting.
    pub open spec fn spec_render(self) -> Seq<char> {
        match self {
            Identity::Unary(a) => a@,
            Identity::Binary(a, b) => a@ + b@,
            Identity::Ternary(a, b, c) => a@ + b@ + c@,
        }
    }

    /// Renders the key as bare identifier text: each part's text, in
    /// order, concatenated with no delimiters and no quoting.
    pub fn unquoted(&self) -> (r: String)
        ensures
            r@ == self.spec_render(),
    {
        match self {
            Identity::Unary(a) => a.clone(),
            Identity::Binary(a, b) => a.clone().concat(b.as_str()),
            Identity::Ternary(a, b, c) => a.clone().concat(b.as_str()).concat(c.as_str()),
        }
    }
}

/// Relies on sea_query::Alias::new and sea_query::Iden::to_string: an
/// alias made from a name renders, unquoted, as exactly that name.
#[verifier::external_body]
fn alias_unquoted(name: &str) -> (r: String)
    ensures
        r@ == name@,
{
    sea_query::Iden::to_string(&sea_query::Alias::new(name))
}

/// Conversion of raw names, of named identifier values, and of 2- and
/// 3-tuples of named identifier values into an [`Identity`].
pub trait IntoIdentity: Sized {
    /// The part texts that converting this value produces, in order.
    spec fn identity_parts(&self) -> Seq<Seq<char>>;

    /// Converts this value into an identity whose parts are exactly
    /// [`identity_parts`](IntoIdentity::identity_parts).
    fn into_identity(self) -> (r: Identity)
        ensures
            r.parts() == self.identity_parts(),
    ;
}

impl IntoIdentity for String {
    open spec fn identity_parts(&self) -> Seq<Seq<char>> {
        seq![self@]
    }

    fn into_identity(self) -> (r: Identity) {
        self.as_str().into_identity()
    }
}

impl<'a> IntoIdentity for &'a str {
    open spec fn identity_parts(&self) -> Seq<Seq<char>> {
        seq![self@]
    }

    fn into_identity(self) -> (r: Identity) {
        Identity::Unary(alias_unquoted(self))
    }
}

impl<T: IdenStatic> IntoIdentity for T {
    open spec fn identity_parts(&self) -> Seq<Seq<char>> {
        seq![self.spec_name()]
    }

    fn into_identity(self) -> (r: Identity) {
        Identity::Unary(self.as_str().to_owned())
    }
}

impl<T: IdenStatic, C: IdenStatic> IntoIdentity for (T, C) {
    open spec fn identity_parts(&self) -> Seq<Seq<char>> {
        seq![self.0.spec_name(), self.1.spec_name()]
    }

    fn into_identity(self) -> (r: Identity) {
        Identity::Binary(self.0.as_str().to_owned(), self.1.as_str().to_owned())
    }
}

impl<T: IdenStatic, C: IdenStatic, R: IdenStatic> IntoIdentity for (T, C, R) {
    open spec fn identity_parts(&self) -> Seq<Seq<char>> {
        seq![self.0.spec_name(), self.1.spec_name(), self.2.spec_name()]
    }

    fn into_identity(self) -> (r: Identity) {
        Identity::Ternary(
            self.0.as_str().to_owned(),
            self.1.as_str().to_owned(),
            self.2.as_str().to_owned(),
        )
    }
}

/// Entity-bound key construction: the same conversion as
/// [`IntoIdentity`], but only callable with columns declared on the
/// entity `E` — supplying a column of another entity's schema is a
/// compile-time type error, and no runtime check is made.
pub trait IdentityOf<E>: IntoIdentity where E: EntityTrait {
    /// Converts this column (or tuple of columns) of `E` into an
    /// identity whose parts are exactly
    /// [`identity_parts`](IntoIdentity::identity_parts).
    fn identity_of(self) -> (r: Identity)
        ensures
            r.parts() == self.identity_parts(),
    ;
}

impl<E, C> IdentityOf<E> for C where E: EntityTrait<Column = C>, C: ColumnTrait {
    fn identity_of(self) -> (r: Identity) {
        self.into_identity()
    }
}

impl<E, C> IdentityOf<E> for (C, C) where E: EntityTrait<Column = C>, C: ColumnTrait {
    fn identity_of(self) -> (r: Identity) {
        self.into_identity()
    }
}

impl<E, C> IdentityOf<E> for (C, C, C) where E: EntityTrait<Column = C>, C: ColumnTrait {
    fn identity_of(self) -> (r: Identity) {
        self.into_identity()
    }
}

} // verus!
