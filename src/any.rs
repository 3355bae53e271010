//! Type-erased values: the `Any` trait, the `Dynamic` container, and checked
//! casts out of it.
use vstd::prelude::*;

use crate::sealed::Sealed;

verus! {

/// Identity of a concrete type that a `Dynamic` can hold.
#[derive(Clone, Copy, Debug, PartialEq, Eq, Structural)]
pub enum TypeToken {
    Unit,
    Bool,
    Int,
    Char,
    Str,
}

/// An owned, type-erased value. The type token of a value is given by its
/// variant, so it always matches the payload.
#[derive(Debug)]
pub enum Dynamic {
    Unit(()),
    Bool(bool),
    Int(i64),
    Char(char),
    Str(String),
}

/// A raw value of any type: the container seen by reference.
pub type Variant = Dynamic;

/// The mathematical content of a `Dynamic`.
pub enum DynamicView {
    Unit,
    Bool(bool),
    Int(i64),
    Char(char),
    Str(String),
}

impl DynamicView {
    /// The type token of the payload.
    pub open spec fn token(self) -> TypeToken {
        match self {
            DynamicView::Unit => TypeToken::Unit,
            DynamicView::Bool(_) => TypeToken::Bool,
            DynamicView::Int(_) => TypeToken::Int,
            DynamicView::Char(_) => TypeToken::Char,
            DynamicView::Str(_) => TypeToken::Str,
        }
    }
}

impl View for Dynamic {
    type V = DynamicView;

    open spec fn view(&self) -> DynamicView {
        match self {
            Dynamic::Unit(_) => DynamicView::Unit,
            Dynamic::Bool(b) => DynamicView::Bool(*b),
            Dynamic::Int(i) => DynamicView::Int(*i),
            Dynamic::Char(c) => DynamicView::Char(*c),
            Dynamic::Str(s) => DynamicView::Str(*s),
        }
    }
}

/// A type whose values a `Dynamic` can hold. Only this library implements
/// it: its supertrait cannot be named from outside.
pub trait Any: Sized + Sealed {
    /// The token of this type.
    spec fn spec_token() -> TypeToken;

    /// The name of this type.
    spec fn spec_type_label() -> Seq<char>;

    /// The content of the `Dynamic` that holds `v`.
    spec fn wrapped(v: Self) -> DynamicView;

    /// A wrapped value carries the token of its type.
    proof fn lemma_wrapped_token(v: Self)
        ensures
            Self::wrapped(v).token() == Self::spec_token(),
    ;

    /// Distinct values are wrapped into distinct contents.
    proof fn lemma_wrapped_injective(a: Self, b: Self)
        requires
            Self::wrapped(a) == Self::wrapped(b),
        ensures
            a == b,
    ;

    /// The token of this type.
    fn type_token() -> (r: TypeToken)
        ensures
            r == Self::spec_token(),
    ;

    /// Get the `TypeToken` of this value's type.
    fn type_id(&self) -> (r: TypeToken)
        ensures
            r == Self::spec_token(),
    ;

    /// Get the name of this value's type.
    fn type_label(&self) -> (r: &'static str)
        ensures
            r@ == Self::spec_type_label(),
    ;

    /// Wrap a duplicate of this value into a `Dynamic`.
    fn into_dynamic(&self) -> (r: Dynamic)
        ensures
            r@ == Self::wrapped(*self),
    ;

    /// A reference to the payload of `d`, when it holds this type.
    fn ref_in(d: &Dynamic) -> (r: Option<&Self>)
        ensures
            r is Some <==> d@.token() == Self::spec_token(),
            r is Some ==> Self::wrapped(*r->Some_0) == d@,
    ;

    /// A mutable reference to the payload of `d`, when it holds this type.
    fn mut_in(d: &mut Dynamic) -> (r: Option<&mut Self>)
        ensures
            r is Some <==> old(d)@.token() == Self::spec_token(),
            match r {
                Some(x) => Self::wrapped(*x) == old(d)@ && final(d)@ == Self::wrapped(*final(x)),
                None => *final(d) == *old(d),
            },
    ;

    /// The payload of `d` when it holds this type; otherwise `d` itself.
    fn take_from(d: Dynamic) -> (r: Result<Self, Dynamic>)
        ensures
            r is Ok <==> d@.token() == Self::spec_token(),
            r is Ok ==> Self::wrapped(r->Ok_0) == d@,
            r is Err ==> r->Err_0 == d,
    ;
}

impl Any for () {
    open spec fn spec_token() -> TypeToken {
        TypeToken::Unit
    }

    open spec fn spec_type_label() -> Seq<char> {
        "()"@
    }

    open spec fn wrapped(v: Self) -> DynamicView {
        DynamicView::Unit
    }

    proof fn lemma_wrapped_token(v: Self) {
    }

    proof fn lemma_wrapped_injective(a: Self, b: Self) {
    }

    fn type_token() -> (r: TypeToken) {
        TypeToken::Unit
    }

    fn type_id(&self) -> (r: TypeToken) {
        TypeToken::Unit
    }

    fn type_label(&self) -> (r: &'static str) {
        "()"
    }

    fn into_dynamic(&self) -> (r: Dynamic) {
        Dynamic::Unit(())
    }

    fn ref_in(d: &Dynamic) -> (r: Option<&Self>) {
        match d {
            Dynamic::Unit(x) => Some(x),
            _ => None,
        }
    }

    fn mut_in(d: &mut Dynamic) -> (r: Option<&mut Self>) {
        match d {
            Dynamic::Unit(x) => Some(x),
            _ => None,
        }
    }

    fn take_from(d: Dynamic) -> (r: Result<Self, Dynamic>) {
        match d {
            Dynamic::Unit(x) => Ok(x),
            _ => Err(d),
        }
    }
}

impl Any for i64 {
    open spec fn spec_token() -> TypeToken {
        TypeToken::Int
    }

    open spec fn spec_type_label() -> Seq<char> {
        "i64"@
    }

    open spec fn wrapped(v: Self) -> DynamicView {
        DynamicView::Int(v)
    }

    proof fn lemma_wrapped_token(v: Self) {
    }

    proof fn lemma_wrapped_injective(a: Self, b: Self) {
    }

    fn type_token() -> (r: TypeToken) {
        TypeToken::Int
    }

    fn type_id(&self) -> (r: TypeToken) {
        TypeToken::Int
    }

    fn type_label(&self) -> (r: &'static str) {
        "i64"
    }

    fn into_dynamic(&self) -> (r: Dynamic) {
        Dynamic::Int(*self)
    }

    fn ref_in(d: &Dynamic) -> (r: Option<&Self>) {
        match d {
            Dynamic::Int(x) => Some(x),
            _ => None,
        }
    }

    fn mut_in(d: &mut Dynamic) -> (r: Option<&mut Self>) {
        match d {
            Dynamic::Int(x) => Some(x),
            _ => None,
        }
    }

    fn take_from(d: Dynamic) -> (r: Result<Self, Dynamic>) {
        match d {
            Dynamic::Int(x) => Ok(x),
            _ => Err(d),
        }
    }
}

impl Any for bool {
    open spec fn spec_token() -> TypeToken {
        TypeToken::Bool
    }

    open spec fn spec_type_label() -> Seq<char> {
        "bool"@
    }

    open spec fn wrapped(v: Self) -> DynamicView {
        DynamicView::Bool(v)
    }

    proof fn lemma_wrapped_token(v: Self) {
    }

    proof fn lemma_wrapped_injective(a: Self, b: Self) {
    }

    fn type_token() -> (r: TypeToken) {
        TypeToken::Bool
    }

    fn type_id(&self) -> (r: TypeToken) {
        TypeToken::Bool
    }

    fn type_label(&self) -> (r: &'static str) {
        "bool"
    }

    fn into_dynamic(&self) -> (r: Dynamic) {
        Dynamic::Bool(*self)
    }

    fn ref_in(d: &Dynamic) -> (r: Option<&Self>) {
        match d {
            Dynamic::Bool(x) => Some(x),
            _ => None,
        }
    }

    fn mut_in(d: &mut Dynamic) -> (r: Option<&mut Self>) {
        match d {
            Dynamic::Bool(x) => Some(x),
            _ => None,
        }
    }

    fn take_from(d: Dynamic) -> (r: Result<Self, Dynamic>) {
        match d {
            Dynamic::Bool(x) => Ok(x),
            _ => Err(d),
        }
    }
}

impl Any for char {
    open spec fn spec_token() -> TypeToken {
        TypeToken::Char
    }

    open spec fn spec_type_label() -> Seq<char> {
        "char"@
    }

    open spec fn wrapped(v: Self) -> DynamicView {
        DynamicView::Char(v)
    }

    proof fn lemma_wrapped_token(v: Self) {
    }

    proof fn lemma_wrapped_injective(a: Self, b: Self) {
    }

    fn type_token() -> (r: TypeToken) {
        TypeToken::Char
    }

    fn type_id(&self) -> (r: TypeToken) {
        TypeToken::Char
    }

    fn type_label(&self) -> (r: &'static str) {
        "char"
    }

    fn into_dynamic(&self) -> (r: Dynamic) {
        Dynamic::Char(*self)
    }

    fn ref_in(d: &Dynamic) -> (r: Option<&Self>) {
        match d {
            Dynamic::Char(x) => Some(x),
            _ => None,
        }
    }

    fn mut_in(d: &mut Dynamic) -> (r: Option<&mut Self>) {
        match d {
            Dynamic::Char(x) => Some(x),
            _ => None,
        }
    }

    fn take_from(d: Dynamic) -> (r: Result<Self, Dynamic>) {
        match d {
            Dynamic::Char(x) => Ok(x),
            _ => Err(d),
        }
    }
}

impl Any for String {
    open spec fn spec_token() -> TypeToken {
        TypeToken::Str
    }

    open spec fn spec_type_label() -> Seq<char> {
        "alloc::string::String"@
    }

    open spec fn wrapped(v: Self) -> DynamicView {
        DynamicView::Str(v)
    }

    proof fn lemma_wrapped_token(v: Self) {
    }

    proof fn lemma_wrapped_injective(a: Self, b: Self) {
    }

    fn type_token() -> (r: TypeToken) {
        TypeToken::Str
    }

    fn type_id(&self) -> (r: TypeToken) {
        TypeToken::Str
    }

    fn type_label(&self) -> (r: &'static str) {
        "alloc::string::String"
    }

    fn into_dynamic(&self) -> (r: Dynamic) {
        Dynamic::Str(self.clone())
    }

    fn ref_in(d: &Dynamic) -> (r: Option<&Self>) {
        match d {
            Dynamic::Str(x) => Some(x),
            _ => None,
        }
    }

    fn mut_in(d: &mut Dynamic) -> (r: Option<&mut Self>) {
        match d {
            Dynamic::Str(x) => Some(x),
            _ => None,
        }
    }

    fn take_from(d: Dynamic) -> (r: Result<Self, Dynamic>) {
        match d {
            Dynamic::Str(x) => Ok(x),
            _ => Err(d),
        }
    }
}

/// Whether `d` holds a value of type `T`.
pub open spec fn holds<T: Any>(d: DynamicView) -> bool {
    d.token() == T::spec_token()
}

impl DynamicView {
    /// The name of the payload's type.
    pub open spec fn type_label(self) -> Seq<char> {
        match self {
            DynamicView::Unit => <() as Any>::spec_type_label(),
            DynamicView::Bool(_) => <bool as Any>::spec_type_label(),
            DynamicView::Int(_) => <i64 as Any>::spec_type_label(),
            DynamicView::Char(_) => <char as Any>::spec_type_label(),
            DynamicView::Str(_) => <String as Any>::spec_type_label(),
        }
    }
}

impl Dynamic {
    /// The token of the payload's type.
    pub fn type_id(&self) -> (r: TypeToken)
        ensures
            r == self@.token(),
    {
        match self {
            Dynamic::Unit(x) => x.type_id(),
            Dynamic::Bool(x) => x.type_id(),
            Dynamic::Int(x) => x.type_id(),
            Dynamic::Char(x) => x.type_id(),
            Dynamic::Str(x) => x.type_id(),
        }
    }

    /// The name of the payload's type.
    pub fn type_label(&self) -> (r: &'static str)
        ensures
            r@ == self@.type_label(),
    {
        match self {
            Dynamic::Unit(x) => x.type_label(),
            Dynamic::Bool(x) => x.type_label(),
            Dynamic::Int(x) => x.type_label(),
            Dynamic::Char(x) => x.type_label(),
            Dynamic::Str(x) => x.type_label(),
        }
    }

    /// Is this value of type `T`?
    pub fn is<T: Any>(&self) -> (r: bool)
        ensures
            r == holds::<T>(self@),
    {
        self.type_id() == T::type_token()
    }

    /// A reference to the payload as a `T`, or `None` if it holds another type.
    pub fn downcast_ref<T: Any>(&self) -> (r: Option<&T>)
        ensures
            r is Some <==> holds::<T>(self@),
            r is Some ==> T::wrapped(*r->Some_0) == self@,
    {
        T::ref_in(self)
    }

    /// A mutable reference to the payload as a `T`, or `None` if it holds
    /// another type. Writing through the reference changes this value only.
    pub fn downcast_mut<T: Any>(&mut self) -> (r: Option<&mut T>)
        ensures
            r is Some <==> holds::<T>(old(self)@),
            match r {
                Some(x) => T::wrapped(*x) == old(self)@ && final(self)@ == T::wrapped(*final(x)),
                None => *final(self) == *old(self),
            },
    {
        T::mut_in(self)
    }
}

impl Clone for Dynamic {
    /// A duplicate that owns its own copy of the payload.
    fn clone(&self) -> (r: Self)
        ensures
            r == *self,
    {
        match self {
            Dynamic::Unit(x) => x.into_dynamic(),
            Dynamic::Bool(x) => x.into_dynamic(),
            Dynamic::Int(x) => x.into_dynamic(),
            Dynamic::Char(x) => x.into_dynamic(),
            Dynamic::Str(x) => Dynamic::Str(x.clone()),
        }
    }
}

/// Down-casting of an owned `Dynamic` value to a specific type. Only this
/// library implements it.
pub trait AnyExt: Sized + Sealed + View<V = DynamicView> {
    /// The payload as a `T`, or the unchanged value back if it holds another
    /// type.
    fn downcast<T: Any>(self) -> (r: Result<Box<T>, Self>)
        ensures
            downcast_returns::<T, Self>(self, r),
    ;
}

impl AnyExt for Dynamic {
    fn downcast<T: Any>(self) -> (r: Result<Box<T>, Self>) {
        match T::take_from(self) {
            Ok(v) => Ok(Box::new(v)),
            Err(d) => Err(d),
        }
    }
}

/// What a checked extraction of `d` as a `T` returns: the payload when `d`
/// holds a `T`, and otherwise `d` itself, untouched.
pub open spec fn downcast_returns<T: Any, D: View<V = DynamicView>>(d: D, r: Result<Box<T>, D>) -> bool {
    &&& (r is Ok <==> holds::<T>(d@))
    &&& (r is Ok ==> T::wrapped(*r->Ok_0) == d@)
    &&& (r is Err ==> r->Err_0 == d)
}

/// A wrapped `T` passes the identity test for `T` and fails it for every type
/// `U` with another token.
pub proof fn lemma_identity_test<T: Any, U: Any>(v: T)
    requires
        T::spec_token() != U::spec_token(),
    ensures
        holds::<T>(T::wrapped(v)),
        !holds::<U>(T::wrapped(v)),
{
    T::lemma_wrapped_token(v);
}

/// A duplicate keeps the payload it was made with. `duplicate` is what
/// `clone` returned for `original`, which held `payload`; `updated` is
/// `original` after `w` was written through its `downcast_mut` reference.
/// Whatever `T` is extracted from the duplicate is `payload`, and the
/// duplicate differs from the updated original whenever `w` differs from
/// `payload`.
pub proof fn lemma_duplicate_independent<T: Any>(
    original: Dynamic,
    duplicate: Dynamic,
    payload: T,
    w: T,
    updated: Dynamic,
)
    requires
        duplicate == original,
        original@ == T::wrapped(payload),
        updated@ == T::wrapped(w),
    ensures
        forall|x: T| T::wrapped(x) == duplicate@ ==> x == payload,
        w != payload ==> duplicate@ != updated@,
{
    assert forall|x: T| T::wrapped(x) == duplicate@ implies x == payload by {
        T::lemma_wrapped_injective(x, payload);
    }
    if duplicate@ == updated@ {
        T::lemma_wrapped_injective(w, payload);
    }
}

/// Extracting a wrapped `v: T` as another type `U` fails and hands back the
/// container unchanged; extracting that container as a `T` then yields `v`
/// itself.
pub proof fn lemma_checked_extraction<T: Any, U: Any>(
    v: T,
    d: Dynamic,
    wrong: Result<Box<U>, Dynamic>,
    right: Result<Box<T>, Dynamic>,
)
    requires
        T::spec_token() != U::spec_token(),
        d@ == T::wrapped(v),
        downcast_returns::<U, Dynamic>(d, wrong),
        wrong is Err ==> downcast_returns::<T, Dynamic>(wrong->Err_0, right),
    ensures
        wrong is Err,
        wrong->Err_0 == d,
        right is Ok,
        *right->Ok_0 == v,
{
    T::lemma_wrapped_token(v);
    T::lemma_wrapped_injective(*right->Ok_0, v);
}

/// Extracting a wrapped `v: T` as a `T` yields `v` itself.
pub proof fn lemma_extraction_round_trip<T: Any>(v: T, d: Dynamic, r: Result<Box<T>, Dynamic>)
    requires
        d@ == T::wrapped(v),
        downcast_returns::<T, Dynamic>(d, r),
    ensures
        r is Ok,
        *r->Ok_0 == v,
{
    T::lemma_wrapped_token(v);
    T::lemma_wrapped_injective(*r->Ok_0, v);
}

} // verus!
