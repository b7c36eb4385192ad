use vstd::prelude::*;

verus! {

/// A strategy that decides the placeholder text shown in place of a hidden value.
///
/// `fmt` is handed the hidden value, for strategies that want to show something
/// harmless about it, and the name of its type. What it returns is pinned down by
/// `placeholder`.
pub trait Msg<T> {
    /// The text this strategy shows for `value`, a value of the type named `ty_name`.
    spec fn placeholder(value: T, ty_name: Seq<char>) -> Seq<char>;

    /// Builds the placeholder text for `value`, whose type is named `ty_name`.
    fn fmt(value: &T, ty_name: &str) -> (r: String)
        ensures
            r@ == Self::placeholder(*value, ty_name@),
    ;
}

/// The placeholder `<no debug: NAME>`, where `NAME` is the wrapped type's name.
pub open spec fn no_debug_text(ty_name: Seq<char>) -> Seq<char> {
    "<no debug: "@ + ty_name + ">"@
}

/// The default strategy: shows the wrapped type's name and nothing of the value.
#[derive(Debug, Clone, Hash)]
pub struct WithTypeInfo;

impl<T> Msg<T> for WithTypeInfo {
    open spec fn placeholder(value: T, ty_name: Seq<char>) -> Seq<char> {
        no_debug_text(ty_name)
    }

    fn fmt(value: &T, ty_name: &str) -> (r: String) {
        let mut s = String::from_str("<no debug: ");
        s.append(ty_name);
        s.append(">");
        s
    }
}

/// A strategy that shows `...` whatever the value and its type.
#[derive(Debug, Clone, Hash)]
pub struct Ellipses;

impl<T> Msg<T> for Ellipses {
    open spec fn placeholder(value: T, ty_name: Seq<char>) -> Seq<char> {
        "..."@
    }

    fn fmt(value: &T, ty_name: &str) -> (r: String) {
        String::from_str("...")
    }
}

/// Under the default strategy the placeholder is `<no debug: NAME>` for every value:
/// two values of one type render alike, and the text holds the type's name.
pub proof fn lemma_type_info_ignores_value<T>(a: T, b: T, ty_name: Seq<char>)
    ensures
        <WithTypeInfo as Msg<T>>::placeholder(a, ty_name) == no_debug_text(ty_name),
        <WithTypeInfo as Msg<T>>::placeholder(a, ty_name) == <WithTypeInfo as Msg<T>>::placeholder(
            b,
            ty_name,
        ),
        no_debug_text(ty_name).subrange(11, 11 + ty_name.len() as int) == ty_name,
{
    reveal_strlit("<no debug: ");
    assert(no_debug_text(ty_name).subrange(11, 11 + ty_name.len() as int) =~= ty_name);
}

/// The ellipsis strategy shows exactly `...`, whatever the value and its type.
pub proof fn lemma_ellipses_is_fixed<T>(value: T, ty_name: Seq<char>)
    ensures
        <Ellipses as Msg<T>>::placeholder(value, ty_name) == "..."@,
{
}

} // verus!
