use proc_macro2::{Ident, TokenStream};
use quote::ToTokens;
use syn::{Attribute, ExprParen, ExprTuple, Item, ItemFn};
use vstd::prelude::*;
use vstd::string::StringExecFns;

verus! {

/// An attribute of the entry function, as the analysis reads it: the names of the
/// segments of its path, the identifiers listed in its parentheses, and the attribute
/// itself (`A`), carried through.
pub struct AttributeModel<A> {
    pub segments: Vec<String>,
    pub arguments: Vec<String>,
    pub attr: A,
}

/// The kinds of attributes the entry macro takes in.
pub enum AttrKind {
    Tasks,
    Triggers,
    Channels,
}

/// The kind of an attribute: its second path segment names it (`hat_macros::tasks`).
pub open spec fn attr_kind<A>(a: AttributeModel<A>) -> Option<AttrKind> {
    if a.segments@.len() >= 2 && a.segments@[1]@ == "tasks"@ {
        Some(AttrKind::Tasks)
    } else if a.segments@.len() >= 2 && a.segments@[1]@ == "triggers"@ {
        Some(AttrKind::Triggers)
    } else if a.segments@.len() >= 2 && a.segments@[1]@ == "channels"@ {
        Some(AttrKind::Channels)
    } else {
        None
    }
}

/// The identifiers of the attributes of kind `kind`, taking the attributes from the
/// last to the first (each attribute's identifiers in their own order).
pub open spec fn collected<A>(attrs: Seq<AttributeModel<A>>, kind: AttrKind) -> Seq<Seq<char>>
    decreases attrs.len(),
{
    if attrs.len() == 0 {
        Seq::empty()
    } else {
        let last = attrs.last();
        let own = if attr_kind(last) == Some(kind) {
            last.arguments@.map_values(|s: String| s@)
        } else {
            Seq::empty()
        };
        own + collected(attrs.drop_last(), kind)
    }
}

/// The attributes the analysis leaves on the function, in their order.
pub open spec fn kept<A>(attrs: Seq<AttributeModel<A>>) -> Seq<A>
    decreases attrs.len(),
{
    if attrs.len() == 0 {
        Seq::empty()
    } else {
        let rest = kept(attrs.drop_last());
        if attr_kind(attrs.last()) is None {
            rest.push(attrs.last().attr)
        } else {
            rest
        }
    }
}

/// What the entry macro learned from the function it decorates: the tasks, channels and
/// triggers to set up, and the function itself (`I`) with its remaining attributes.
pub struct Model<I, A> {
    pub tasks: Vec<String>,
    pub channels: Vec<String>,
    pub mutexes: Vec<String>,
    pub semaphores: Vec<String>,
    pub triggers: Vec<String>,
    pub item: I,
    pub attrs: Vec<A>,
}

/// The views of a list of strings.
pub open spec fn views(v: Seq<String>) -> Seq<Seq<char>> {
    v.map_values(|s: String| s@)
}

fn is_named(s: &String, name: &str) -> (b: bool)
    ensures
        b == (s@ == name@),
{
    *s == String::from_str(name)
}

fn kind_of<A>(a: &AttributeModel<A>) -> (k: Option<AttrKind>)
    ensures
        k == attr_kind(*a),
{
    if a.segments.len() >= 2 {
        if is_named(&a.segments[1], "tasks") {
            return Some(AttrKind::Tasks);
        } else if is_named(&a.segments[1], "triggers") {
            return Some(AttrKind::Triggers);
        } else if is_named(&a.segments[1], "channels") {
            return Some(AttrKind::Channels);
        }
    }
    None
}

fn append_all(into: &mut Vec<String>, items: Vec<String>)
    ensures
        views(final(into)@) == views(old(into)@) + views(items@),
{
    let ghost given = items@;
    let mut items = items;
    into.append(&mut items);
    assert(views(into@) =~= views(old(into)@) + views(given));
}

/// Reads the entry function's attributes, from the last to the first: each `tasks`,
/// `triggers` or `channels` attribute is taken off the function and its identifiers
/// are added to the matching list; the other attributes stay.
pub fn entry_analyze<I, A>(item: I, attrs: Vec<AttributeModel<A>>) -> (model: Model<I, A>)
    ensures
        views(model.tasks@) == collected(attrs@, AttrKind::Tasks),
        views(model.triggers@) == collected(attrs@, AttrKind::Triggers),
        views(model.channels@) == collected(attrs@, AttrKind::Channels),
        model.mutexes@ == Seq::<String>::empty(),
        model.semaphores@ == Seq::<String>::empty(),
        model.item == item,
        model.attrs@ == kept(attrs@),
{
    let ghost all = attrs@;
    let mut attrs = attrs;
    let mut tasks: Vec<String> = Vec::new();
    let mut channels: Vec<String> = Vec::new();
    let mut triggers: Vec<String> = Vec::new();
    let mut kept_rev: Vec<A> = Vec::new();
    while attrs.len() > 0
        invariant
            all.take(attrs@.len() as int) == attrs@,
            attrs@.len() <= all.len(),
            views(tasks@) + collected(attrs@, AttrKind::Tasks) == collected(all, AttrKind::Tasks),
            views(triggers@) + collected(attrs@, AttrKind::Triggers) == collected(all, AttrKind::Triggers),
            views(channels@) + collected(attrs@, AttrKind::Channels) == collected(all, AttrKind::Channels),
            kept(attrs@) + kept_rev@.reverse() == kept(all),
        decreases attrs@.len(),
    {
        let ghost before = attrs@;
        let attr = attrs.pop().unwrap();
        proof {
            assert(before.drop_last() =~= attrs@);
            assert(all.take(attrs@.len() as int) =~= attrs@);
        }
        let kind = kind_of(&attr);
        let AttributeModel { segments: _, arguments, attr: payload } = attr;
        match kind {
            Some(AttrKind::Tasks) => {
                let ghost t = tasks@;
                append_all(&mut tasks, arguments);
                assert(views(tasks@) + collected(attrs@, AttrKind::Tasks) =~= views(t) + collected(before, AttrKind::Tasks));
            },
            Some(AttrKind::Triggers) => {
                let ghost t = triggers@;
                append_all(&mut triggers, arguments);
                assert(views(triggers@) + collected(attrs@, AttrKind::Triggers) =~= views(t) + collected(before, AttrKind::Triggers));
            },
            Some(AttrKind::Channels) => {
                let ghost t = channels@;
                append_all(&mut channels, arguments);
                assert(views(channels@) + collected(attrs@, AttrKind::Channels) =~= views(t) + collected(before, AttrKind::Channels));
            },
            None => {
                let ghost k = kept_rev@;
                kept_rev.push(payload);
                assert(kept_rev@.reverse() =~= seq![payload] + k.reverse());
            },
        }
    }
    let mut kept_attrs: Vec<A> = Vec::new();
    let ghost rev = kept_rev@;
    while kept_rev.len() > 0
        invariant
            kept_attrs@ + kept_rev@.reverse() == rev.reverse(),
        decreases kept_rev@.len(),
    {
        let ghost before = kept_rev@;
        let a = kept_rev.pop().unwrap();
        kept_attrs.push(a);
        assert(kept_attrs@ + kept_rev@.reverse() =~= rev.reverse());
    }
    Model {
        tasks,
        channels,
        mutexes: Vec::new(),
        semaphores: Vec::new(),
        triggers,
        item,
        attrs: kept_attrs,
    }
}

/// The upper-case form of a string, as `str::to_uppercase` gives it (Unicode case
/// mapping).
pub uninterp spec fn uppercase(s: Seq<char>) -> Seq<char>;

/// Calls `str::to_uppercase`. Trusted: the result is the upper-case form of `s`,
/// named by `uppercase`.
#[verifier::external_body]
fn to_uppercase(s: &str) -> (upper: String)
    ensures
        upper@ == uppercase(s@),
{
    s.to_uppercase()
}

/// A task the generated entry point sets up: the static that holds it, the task
/// function, and the task's id.
pub struct TaskStatic {
    pub static_name: String,
    pub task: String,
    pub index: usize,
}

/// What the entry macro generates, besides the renamed function itself: the name the
/// function is renamed to, the channels and triggers to initialise, the task statics
/// (ids from 1; the entry function is task 0), and the executor's number of tasks.
pub struct CodegenPlan {
    pub inner_name: String,
    pub channels: Vec<String>,
    pub triggers: Vec<String>,
    pub tasks: Vec<TaskStatic>,
    pub tasks_amount: usize,
}

/// Plans the code generated for the entry function named `function_name`.
pub fn entry_codegen<I, A>(function_name: &String, model: &Model<I, A>) -> (plan: CodegenPlan)
    requires
        model.tasks@.len() < usize::MAX,
    ensures
        plan.inner_name@ == function_name@ + "_inner"@,
        plan.channels@ == model.channels@,
        plan.triggers@ == model.triggers@,
        plan.tasks@.len() == model.tasks@.len(),
        forall|i: int|
            0 <= i < plan.tasks@.len() ==> {
                &&& (#[trigger] plan.tasks@[i]).static_name@ == uppercase(model.tasks@[i]@)
                &&& plan.tasks@[i].task == model.tasks@[i]
                &&& plan.tasks@[i].index == i + 1
            },
        plan.tasks_amount == model.tasks@.len() + 1,
{
    let mut inner_name = function_name.clone();
    inner_name.append("_inner");
    let mut tasks: Vec<TaskStatic> = Vec::new();
    let mut i: usize = 0;
    while i < model.tasks.len()
        invariant
            i <= model.tasks@.len(),
            model.tasks@.len() < usize::MAX,
            tasks@.len() == i,
            forall|k: int|
                0 <= k < i ==> {
                    &&& (#[trigger] tasks@[k]).static_name@ == uppercase(model.tasks@[k]@)
                    &&& tasks@[k].task == model.tasks@[k]
                    &&& tasks@[k].index == k + 1
                },
        decreases model.tasks@.len() - i,
    {
        let task = model.tasks[i].clone();
        let static_name = to_uppercase(task.as_str());
        tasks.push(TaskStatic { static_name, task, index: i + 1 });
        i = i + 1;
    }
    CodegenPlan {
        inner_name,
        channels: model.channels.clone(),
        triggers: model.triggers.clone(),
        tasks,
        tasks_amount: model.tasks.len() + 1,
    }
}


#[verifier::external_type_specification]
#[verifier::external_body]
pub struct ExTokenStream(TokenStream);

#[verifier::external_type_specification]
#[verifier::external_body]
pub struct ExItemFn(ItemFn);

#[verifier::external_type_specification]
#[verifier::external_body]
pub struct ExAttribute(Attribute);

/// Why the entry attribute refuses what it decorates.
pub enum EntryError {
    /// The attribute was given an argument; it takes none.
    ArgumentGiven,
    /// The decorated item is not a function.
    NotAFunction,
}

/// Whether a token stream holds no token, as `TokenStream::is_empty` tells.
pub uninterp spec fn tokens_are_empty(ts: TokenStream) -> bool;

/// Calls `TokenStream::is_empty`. Trusted: the result is named by `tokens_are_empty`.
#[verifier::external_body]
fn tokens_empty(ts: &TokenStream) -> (b: bool)
    ensures
        b == tokens_are_empty(*ts),
{
    ts.is_empty()
}

/// The function item that `syn::parse2::<syn::Item>` reads from a token stream, or
/// nothing when the tokens are not an item or the item is not a function.
pub uninterp spec fn parsed_fn(item: TokenStream) -> Option<ItemFn>;

/// Calls `syn::parse2::<syn::Item>` and keeps the `Item::Fn` variant. Trusted: the
/// result is named by `parsed_fn`.
#[verifier::external_body]
fn parse_fn_item(item: TokenStream) -> (f: Option<ItemFn>)
    ensures
        f == parsed_fn(item),
{
    match syn::parse2::<Item>(item) {
        Ok(Item::Fn(f)) => Some(f),
        _ => None,
    }
}

/// The views of a list of optional strings.
pub open spec fn option_views(v: Seq<Option<String>>) -> Seq<Option<Seq<char>>> {
    v.map_values(|o: Option<String>| match o {
        Some(s) => Some(s@),
        None => None,
    })
}

/// The tokens of the elements of a parenthesised tuple that `syn::parse2::<ExprTuple>`
/// reads from a token stream; nothing when the tokens are not a tuple.
pub uninterp spec fn tuple_element_tokens(ts: TokenStream) -> Option<Seq<TokenStream>>;

/// Calls `syn::parse2::<ExprTuple>` and hands out each element's tokens. Trusted: the
/// result is named by `tuple_element_tokens`.
#[verifier::external_body]
fn parse_tuple_element_tokens(ts: &TokenStream) -> (e: Option<Vec<TokenStream>>)
    ensures
        e is None <==> tuple_element_tokens(*ts) is None,
        e matches Some(v) ==> v@ == tuple_element_tokens(*ts).unwrap(),
{
    syn::parse2::<ExprTuple>(ts.clone()).ok().map(|tuple| tuple.elems.iter().map(|e| e.to_token_stream()).collect())
}

/// The tokens of the expression in parentheses that `syn::parse2::<ExprParen>` reads
/// from a token stream; nothing when the tokens are not parenthesised.
pub uninterp spec fn paren_inner_tokens(ts: TokenStream) -> Option<TokenStream>;

/// Calls `syn::parse2::<ExprParen>` and hands out the inner expression's tokens.
/// Trusted: the result is named by `paren_inner_tokens`.
#[verifier::external_body]
fn parse_paren_inner(ts: &TokenStream) -> (e: Option<TokenStream>)
    ensures
        e == paren_inner_tokens(*ts),
{
    syn::parse2::<ExprParen>(ts.clone()).ok().map(|p| p.expr.to_token_stream())
}

/// The identifier that `syn::parse2::<Ident>` reads from a token stream, as text;
/// nothing when the tokens are not one identifier.
pub uninterp spec fn parsed_ident(ts: TokenStream) -> Option<Seq<char>>;

/// Calls `syn::parse2::<Ident>` and gives the identifier's text. Trusted: the result's
/// view is named by `parsed_ident`.
#[verifier::external_body]
fn parse_ident(ts: &TokenStream) -> (i: Option<String>)
    ensures
        i is None <==> parsed_ident(*ts) is None,
        i matches Some(s) ==> parsed_ident(*ts) == Some(s@),
{
    syn::parse2::<Ident>(ts.clone()).ok().map(|i| i.to_string())
}

/// The identifiers that the tokens of a tuple's elements read as, one per element
/// (nothing for an element that is not an identifier); nothing when the tokens are not
/// a tuple.
pub open spec fn tuple_elements(ts: TokenStream) -> Option<Seq<Option<Seq<char>>>> {
    match tuple_element_tokens(ts) {
        Some(elems) => Some(elems.map_values(|t: TokenStream| parsed_ident(t))),
        None => None,
    }
}

/// The identifier that the expression in parentheses reads as (nothing when it is not
/// an identifier); nothing when the tokens are not parenthesised.
pub open spec fn paren_ident(ts: TokenStream) -> Option<Option<Seq<char>>> {
    match paren_inner_tokens(ts) {
        Some(inner) => Some(parsed_ident(inner)),
        None => None,
    }
}

/// Reads the tokens as a tuple, and each element as an identifier.
fn parse_tuple_elements(ts: &TokenStream) -> (e: Option<Vec<Option<String>>>)
    ensures
        tuple_view(e) == tuple_elements(*ts),
{
    match parse_tuple_element_tokens(ts) {
        None => None,
        Some(elems) => {
            let ghost idents = elems@.map_values(|t: TokenStream| parsed_ident(t));
            let mut out: Vec<Option<String>> = Vec::new();
            let mut i: usize = 0;
            while i < elems.len()
                invariant
                    i <= elems@.len(),
                    idents == elems@.map_values(|t: TokenStream| parsed_ident(t)),
                    out@.len() == i,
                    idents.len() == elems@.len(),
                    option_views(out@) == idents.take(i as int),
                decreases elems@.len() - i,
            {
                let ident = parse_ident(&elems[i]);
                let ghost before = out@;
                out.push(ident);
                proof {
                    assert(idents[i as int] == parsed_ident(elems@[i as int]));
                    assert(out@ == before.push(ident));
                    assert(option_views(out@).len() == i + 1);
                    assert forall|k: int| 0 <= k < i + 1 implies option_views(out@)[k] == idents.take(i + 1)[k] by {
                        if k < i {
                            assert(option_views(before)[k] == idents.take(i as int)[k]);
                        } else {
                            match ident {
                                Some(t) => assert(option_views(out@)[k] == Some(t@)),
                                None => assert(option_views(out@)[k] == None::<Seq<char>>),
                            }
                        }
                    }
                    assert(option_views(out@) =~= idents.take(i + 1));
                }
                i = i + 1;
            }
            assert(idents.take(elems@.len() as int) =~= idents);
            Some(out)
        },
    }
}

/// Reads the tokens as an expression in parentheses, and that as an identifier.
fn parse_paren_ident(ts: &TokenStream) -> (e: Option<Option<String>>)
    ensures
        paren_view(e) == paren_ident(*ts),
{
    match parse_paren_inner(ts) {
        None => None,
        Some(inner) => Some(parse_ident(&inner)),
    }
}

/// The names of the segments of an attribute's path, as `syn` gives them.
pub uninterp spec fn attribute_segments(a: Attribute) -> Seq<Seq<char>>;

/// Reads the identifiers of an attribute's path segments. Trusted: their views are
/// named by `attribute_segments`.
#[verifier::external_body]
fn attr_segments(a: &Attribute) -> (s: Vec<String>)
    ensures
        views(s@) == attribute_segments(*a),
{
    a.path.segments.iter().map(|seg| seg.ident.to_string()).collect()
}

/// The tokens that follow an attribute's path, as `syn` gives them.
pub uninterp spec fn attribute_tokens(a: Attribute) -> TokenStream;

/// Clones the tokens that follow an attribute's path. Trusted: the result is named by
/// `attribute_tokens`.
#[verifier::external_body]
fn attr_tokens(a: &Attribute) -> (ts: TokenStream)
    ensures
        ts == attribute_tokens(*a),
{
    a.tokens.clone()
}

/// Reads the function the entry attribute decorates: the attribute takes no argument,
/// and the decorated tokens must be a function item.
pub fn entry_parse(args: &TokenStream, item: TokenStream) -> (r: Result<ItemFn, EntryError>)
    ensures
        !tokens_are_empty(*args) ==> r == Err::<ItemFn, EntryError>(EntryError::ArgumentGiven),
        tokens_are_empty(*args) && parsed_fn(item) is None ==> r == Err::<ItemFn, EntryError>(
            EntryError::NotAFunction,
        ),
        tokens_are_empty(*args) && parsed_fn(item) is Some ==> r == Ok::<ItemFn, EntryError>(
            parsed_fn(item).unwrap(),
        ),
        r is Err <==> (!tokens_are_empty(*args) || parsed_fn(item) is None),
{
    if !tokens_empty(args) {
        return Err(EntryError::ArgumentGiven);
    }
    match parse_fn_item(item) {
        Some(f) => Ok(f),
        None => Err(EntryError::NotAFunction),
    }
}

/// The identifiers among the optional ones, in order.
pub open spec fn present_idents(elems: Seq<Option<Seq<char>>>) -> Seq<Seq<char>>
    decreases elems.len(),
{
    if elems.len() == 0 {
        Seq::empty()
    } else {
        let rest = present_idents(elems.drop_last());
        match elems.last() {
            Some(s) => rest.push(s),
            None => rest,
        }
    }
}

/// The identifiers an attribute lists: the identifier elements of a tuple `(a, b)`
/// (other elements are skipped), else the identifier in parentheses `(a)`, else none.
pub open spec fn listed_idents(
    tuple: Option<Seq<Option<Seq<char>>>>,
    paren: Option<Option<Seq<char>>>,
) -> Seq<Seq<char>> {
    match tuple {
        Some(elems) => present_idents(elems),
        None => match paren {
            Some(Some(s)) => seq![s],
            _ => Seq::empty(),
        },
    }
}

/// The view of an optional list of optional strings.
pub open spec fn tuple_view(tuple: Option<Vec<Option<String>>>) -> Option<Seq<Option<Seq<char>>>> {
    match tuple {
        Some(v) => Some(option_views(v@)),
        None => None,
    }
}

/// The view of an optional optional string.
pub open spec fn paren_view(paren: Option<Option<String>>) -> Option<Option<Seq<char>>> {
    match paren {
        Some(Some(s)) => Some(Some(s@)),
        Some(None) => Some(None),
        None => None,
    }
}

/// The identifiers an attribute lists, from how its tokens read as a tuple and as a
/// parenthesised expression (see `listed_idents`).
pub fn attribute_arguments(tuple: Option<Vec<Option<String>>>, paren: Option<Option<String>>) -> (a: Vec<String>)
    ensures
        views(a@) == listed_idents(tuple_view(tuple), paren_view(paren)),
{
    match tuple {
        Some(elems) => {
            let mut out: Vec<String> = Vec::new();
            let mut i: usize = 0;
            while i < elems.len()
                invariant
                    i <= elems@.len(),
                    views(out@) == present_idents(option_views(elems@.take(i as int))),
                decreases elems@.len() - i,
            {
                proof {
                    assert(option_views(elems@.take(i + 1)).drop_last() =~= option_views(elems@.take(i as int)));
                }
                match &elems[i] {
                    Some(s) => {
                        out.push(s.clone());
                        assert(views(out@) =~= present_idents(option_views(elems@.take(i + 1))));
                    },
                    None => {},
                }
                i = i + 1;
            }
            assert(elems@.take(elems@.len() as int) =~= elems@);
            out
        },
        None => match paren {
            Some(Some(s)) => {
                let mut out: Vec<String> = Vec::new();
                out.push(s);
                assert(views(out@) =~= seq![s@]);
                out
            },
            _ => {
                let out: Vec<String> = Vec::new();
                assert(views(out@) =~= Seq::<Seq<char>>::empty());
                out
            },
        },
    }
}

/// Reads an attribute of the entry function into the model: its path's segment names
/// and the identifiers it lists.
pub fn attribute_model(attr: Attribute) -> (m: AttributeModel<Attribute>)
    ensures
        views(m.segments@) == attribute_segments(attr),
        views(m.arguments@) == listed_idents(
            tuple_elements(attribute_tokens(attr)),
            paren_ident(attribute_tokens(attr)),
        ),
        m.attr == attr,
{
    let segments = attr_segments(&attr);
    let tokens = attr_tokens(&attr);
    let tuple = parse_tuple_elements(&tokens);
    let paren = parse_paren_ident(&tokens);
    let arguments = attribute_arguments(tuple, paren);
    AttributeModel { segments, arguments, attr }
}

/// Attributes are read from the last to the first: a later `tasks` (or `triggers`, or
/// `channels`) attribute's identifiers come before those of the earlier ones, in their
/// own order; an attribute of another kind adds nothing to that list.
pub proof fn lemma_later_attributes_come_first<A>(
    attrs: Seq<AttributeModel<A>>,
    last: AttributeModel<A>,
    kind: AttrKind,
)
    ensures
        attr_kind(last) == Some(kind) ==> collected(attrs.push(last), kind) == views(last.arguments@)
            + collected(attrs, kind),
        attr_kind(last) != Some(kind) ==> collected(attrs.push(last), kind) == collected(attrs, kind),
{
    assert(attrs.push(last).drop_last() =~= attrs);
    assert(attrs.push(last).last() == last);
    assert(last.arguments@.map_values(|s: String| s@) =~= views(last.arguments@));
}

/// The attributes of other kinds stay on the function, in their order; the `tasks`,
/// `triggers` and `channels` attributes are taken off.
pub proof fn lemma_other_attributes_stay<A>(attrs: Seq<AttributeModel<A>>, last: AttributeModel<A>)
    ensures
        attr_kind(last) is None ==> kept(attrs.push(last)) == kept(attrs).push(last.attr),
        attr_kind(last) is Some ==> kept(attrs.push(last)) == kept(attrs),
{
    assert(attrs.push(last).drop_last() =~= attrs);
    assert(attrs.push(last).last() == last);
}

} // verus!
