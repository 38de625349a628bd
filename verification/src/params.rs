//! Typed parameters of a hash function, and their extraction from the
//! name and value pairs of a PHC string.

use crate::raw::{str_pairs_view, Pair};
use crate::value::{str_eq, FromText};
use std::fmt::Display;
use vstd::prelude::*;
use vstd::slice::slice_subrange;
use vstd::std_specs::cmp::PartialEqSpec;
use vstd::string::to_string_from_display_ensures;

verus! {

/// A type that transforms hash function parameters to and from the raw,
/// serialized version.
///
/// The three `may_` functions say which outcomes the methods can have. An
/// implementation chooses them, and the extraction of a parameter set is
/// specified on top of them.
pub trait Param {
    /// The type of this parameter.
    type Output;

    /// The parameter's name, as a sequence of characters.
    spec fn spec_name(&self) -> Seq<char>;

    /// Whether `out` is a possible result of [`Param::default`].
    spec fn may_default(&self, out: Option<Self::Output>) -> bool;

    /// Whether `out` is a possible result of [`Param::extract`] on `raw`.
    spec fn may_extract(&self, raw: Seq<char>, out: Option<Self::Output>) -> bool;

    /// Whether `out` is a possible result of [`Param::serialize`] on
    /// `value`.
    spec fn may_serialize(&self, value: Self::Output, out: Option<String>) -> bool;

    /// The parameter's name.
    fn name(&self) -> (name: &str)
        ensures
            name@ == self.spec_name(),
    ;

    /// The default value for the parameter if it isn't included, or None if
    /// the parameter is required.
    fn default(&self) -> (out: Option<Self::Output>)
        ensures
            self.may_default(out),
    ;

    /// Extract the parameter's value from a serialized string, returning the
    /// value or None if parsing failed.
    fn extract(&self, raw: &str) -> (out: Option<Self::Output>)
        ensures
            self.may_extract(raw@, out),
    ;

    /// Serialize a value to a string, or to nothing where the value is left
    /// out of the serialized form.
    fn serialize(&self, value: Self::Output) -> (out: Option<String>)
        ensures
            self.may_serialize(value, out),
    ;
}

/// A generic parameter, suitable for most uses.
///
/// `GenParam` implements `Param` for any type that can be read from text,
/// displayed, cloned and compared.
pub struct GenParam<'a, T> {
    /// The name of the param.
    name: &'a str,
    /// The default param value.
    default: Option<T>,
}

impl<'a, T> GenParam<'a, T> {
    /// The name that the parameter was made with.
    pub closed spec fn name_view(&self) -> Seq<char> {
        self.name@
    }

    /// The default that the parameter was made with, if any.
    pub closed spec fn default_view(&self) -> Option<T> {
        self.default
    }

    /// Create a new param without a default value.
    pub fn new(name: &'a str) -> (param: GenParam<'a, T>)
        ensures
            param.name_view() == name@,
            param.default_view() is None,
    {
        GenParam { name, default: None }
    }

    /// Create a new param with a default value.
    pub fn with_default(name: &'a str, default: T) -> (param: GenParam<'a, T>)
        ensures
            param.name_view() == name@,
            param.default_view() == Some(default),
    {
        GenParam { name, default: Some(default) }
    }
}

impl<'a, T> Param for GenParam<'a, T> where T: Clone + Display + FromText + PartialEq {
    type Output = T;

    open spec fn spec_name(&self) -> Seq<char> {
        self.name_view()
    }

    /// A parameter without a default is required; otherwise the outcome is
    /// a clone of the default.
    open spec fn may_default(&self, out: Option<T>) -> bool {
        match self.default_view() {
            None => out is None,
            Some(default) => out matches Some(copy) && cloned(default, copy),
        }
    }

    /// The outcome is what reading the text as a `T` gives.
    open spec fn may_extract(&self, raw: Seq<char>, out: Option<T>) -> bool {
        T::reads(raw, out)
    }

    /// A value is left out exactly when it equals the default; otherwise
    /// the outcome is what displaying the value gives.
    open spec fn may_serialize(&self, value: T, out: Option<String>) -> bool {
        match out {
            None => self.default_view() matches Some(default) && (T::obeys_eq_spec()
                ==> value.eq_spec(&default)),
            Some(text) => to_string_from_display_ensures::<T>(&value, text) && (
            self.default_view() matches Some(default) ==> (T::obeys_eq_spec() ==> !value.eq_spec(
                &default,
            ))),
        }
    }

    fn name(&self) -> (name: &str) {
        self.name
    }

    fn default(&self) -> (out: Option<T>) {
        match &self.default {
            None => None,
            Some(default) => Some(default.clone()),
        }
    }

    fn extract(&self, raw: &str) -> (out: Option<T>) {
        T::from_text(raw)
    }

    fn serialize(&self, value: T) -> (out: Option<String>) {
        match &self.default {
            None => Some(value.to_string()),
            Some(default) => if value != *default {
                Some(value.to_string())
            } else {
                None
            },
        }
    }
}

/// Whether the first pair of `raw` has the name `name`.
pub open spec fn head_is(raw: Seq<Pair>, name: Seq<char>) -> bool {
    raw.len() > 0 && raw[0].0 == name
}

/// The pairs that are left once a parameter called `name` has been looked
/// for at the head of `raw`: the first pair goes if it has that name, and
/// nothing goes otherwise.
pub open spec fn rest_after(raw: Seq<Pair>, name: Seq<char>) -> Seq<Pair> {
    if head_is(raw, name) {
        raw.drop_first()
    } else {
        raw
    }
}

/// Whether `out` is a possible outcome of resolving `param` at the head of
/// `raw`: the value of the first pair is extracted if the pair has the
/// parameter's name, and the default is taken otherwise.
pub open spec fn may_resolve<P: Param>(param: &P, raw: Seq<Pair>, out: Option<P::Output>) -> bool {
    if head_is(raw, param.spec_name()) {
        param.may_extract(raw[0].1, out)
    } else {
        param.may_default(out)
    }
}

/// Whether resolving `param` at the head of `raw` can give a value.
pub open spec fn can_resolve<P: Param>(param: &P, raw: Seq<Pair>) -> bool {
    exists|value: P::Output| may_resolve(param, raw, Some(value))
}

/// A cursor over the name and value pairs of a PHC string.
pub struct RawParamSlice<'a>(&'a [(&'a str, &'a str)]);

impl<'a> View for RawParamSlice<'a> {
    type V = Seq<Pair>;

    /// The pairs that the cursor has not passed yet.
    closed spec fn view(&self) -> Seq<Pair> {
        str_pairs_view(self.0@)
    }
}

impl<'a> RawParamSlice<'a> {
    /// Moves past the first pair and returns its value, if that pair has
    /// the name `key`. Stays in place otherwise.
    pub fn next_if_key(&mut self, key: &str) -> (value: Option<&'a str>)
        ensures
            final(self)@ == rest_after(old(self)@, key@),
            match value {
                Some(value) => head_is(old(self)@, key@) && value@ == old(self)@[0].1,
                None => !head_is(old(self)@, key@),
            },
    {
        if self.0.len() > 0 && str_eq(self.0[0].0, key) {
            let value = self.0[0].1;
            let ghost before = self.0@;
            self.0 = slice_subrange(self.0, 1, self.0.len());
            assert(str_pairs_view(before.subrange(1, before.len() as int)) =~= str_pairs_view(
                before,
            ).drop_first());
            Some(value)
        } else {
            None
        }
    }

    /// Resolves one parameter at the cursor: if the pair at the cursor has
    /// the parameter's name, the cursor moves past it and the pair's value
    /// is extracted; otherwise the cursor stays and the parameter's default
    /// is taken.
    pub fn extract_single<P>(&mut self, param: &P) -> (out: Option<P::Output>) where P: Param
        ensures
            final(self)@ == rest_after(old(self)@, param.spec_name()),
            may_resolve(param, old(self)@, out),
    {
        match self.next_if_key(param.name()) {
            None => param.default(),
            Some(value) => param.extract(value),
        }
    }
}

/// Serializes one parameter into the name and value pairs of a PHC string:
/// the pair of the parameter's name and the text of `value` is appended,
/// unless the parameter leaves the value out. Returns whether a pair was
/// appended.
pub fn serialize_single<P>(params: &mut Vec<(String, String)>, param: &P, value: P::Output) -> (written:
    bool) where P: Param
    ensures
        written ==> exists|text: String|
            #![trigger param.may_serialize(value, Some(text))]
            param.may_serialize(value, Some(text)) && final(params)@.len() == old(params)@.len()
                + 1 && final(params)@.last().0@ == param.spec_name() && final(params)@.last().1
                == text && final(params)@.drop_last() == old(params)@,
        !written ==> param.may_serialize(value, None) && final(params)@ == old(params)@,
{
    match param.serialize(value) {
        Some(text) => {
            let name = param.name().to_owned();
            let ghost before = params@;
            params.push((name, text));
            assert(params@.drop_last() =~= before);
            true
        },
        None => false,
    }
}

/// An ordered set of parameters that is extracted in one go.
pub trait ParamSet {
    /// The values of the parameters, in the order of the set.
    type Params;

    /// Whether `out` is a possible outcome of extracting the set from
    /// `raw`.
    spec fn may_extract_set(&self, raw: Seq<Pair>, out: Option<Self::Params>) -> bool;

    /// Extracts every parameter of the set, in order, from the pairs at the
    /// cursor. Gives nothing as soon as one parameter gives nothing.
    fn extract(&self, raw: RawParamSlice) -> (out: Option<Self::Params>)
        ensures
            self.may_extract_set(raw@, out),
    ;
}

/// Extracts a parameter set from the name and value pairs of a PHC string.
///
/// The parameters are resolved in the order of the set, each at the pair
/// that the one before it left off at, and never at a later pair.
pub fn extract_param_set<P>(param_set: &P, raw: &[(&str, &str)]) -> (out: Option<P::Params>) where
    P: ParamSet,

    ensures
        param_set.may_extract_set(str_pairs_view(raw@), out),
{
    param_set.extract(RawParamSlice(raw))
}

impl<P> ParamSet for P where P: Param {
    type Params = P::Output;

    open spec fn may_extract_set(&self, raw: Seq<Pair>, out: Option<Self::Params>) -> bool {
        may_resolve(self, raw, out)
    }

    fn extract(&self, mut raw: RawParamSlice) -> (out: Option<Self::Params>) {
        raw.extract_single(self)
    }
}

impl<A: Param> ParamSet for (A,) {
    type Params = (A::Output,);

    open spec fn may_extract_set(&self, raw: Seq<Pair>, out: Option<Self::Params>) -> bool {
        let at_0 = raw;
        match out {
            Some(found) => {
                &&& may_resolve(&self.0, at_0, Some(found.0))
            },
            None => {
                ||| may_resolve(&self.0, at_0, None)
            },
        }
    }

    fn extract(&self, mut raw: RawParamSlice) -> (out: Option<Self::Params>) {
        let (a,) = self;
        Some((raw.extract_single(a)?,))
    }
}

impl<A: Param, B: Param> ParamSet for (A, B) {
    type Params = (A::Output, B::Output);

    open spec fn may_extract_set(&self, raw: Seq<Pair>, out: Option<Self::Params>) -> bool {
        let at_0 = raw;
        let at_1 = rest_after(at_0, self.0.spec_name());
        match out {
            Some(found) => {
                &&& may_resolve(&self.0, at_0, Some(found.0))
                &&& may_resolve(&self.1, at_1, Some(found.1))
            },
            None => {
                ||| may_resolve(&self.0, at_0, None)
                ||| can_resolve(&self.0, at_0) && may_resolve(&self.1, at_1, None)
            },
        }
    }

    fn extract(&self, mut raw: RawParamSlice) -> (out: Option<Self::Params>) {
        let (a, b) = self;
        Some((raw.extract_single(a)?, raw.extract_single(b)?))
    }
}

impl<A: Param, B: Param, C: Param> ParamSet for (A, B, C) {
    type Params = (A::Output, B::Output, C::Output);

    open spec fn may_extract_set(&self, raw: Seq<Pair>, out: Option<Self::Params>) -> bool {
        let at_0 = raw;
        let at_1 = rest_after(at_0, self.0.spec_name());
        let at_2 = rest_after(at_1, self.1.spec_name());
        match out {
            Some(found) => {
                &&& may_resolve(&self.0, at_0, Some(found.0))
                &&& may_resolve(&self.1, at_1, Some(found.1))
                &&& may_resolve(&self.2, at_2, Some(found.2))
            },
            None => {
                ||| may_resolve(&self.0, at_0, None)
                ||| can_resolve(&self.0, at_0) && may_resolve(&self.1, at_1, None)
                ||| can_resolve(&self.0, at_0) && can_resolve(&self.1, at_1)
                    && may_resolve(&self.2, at_2, None)
            },
        }
    }

    fn extract(&self, mut raw: RawParamSlice) -> (out: Option<Self::Params>) {
        let (a, b, c) = self;
        Some((raw.extract_single(a)?, raw.extract_single(b)?, raw.extract_single(c)?))
    }
}

impl<A: Param, B: Param, C: Param, D: Param> ParamSet for (A, B, C, D) {
    type Params = (A::Output, B::Output, C::Output, D::Output);

    open spec fn may_extract_set(&self, raw: Seq<Pair>, out: Option<Self::Params>) -> bool {
        let at_0 = raw;
        let at_1 = rest_after(at_0, self.0.spec_name());
        let at_2 = rest_after(at_1, self.1.spec_name());
        let at_3 = rest_after(at_2, self.2.spec_name());
        match out {
            Some(found) => {
                &&& may_resolve(&self.0, at_0, Some(found.0))
                &&& may_resolve(&self.1, at_1, Some(found.1))
                &&& may_resolve(&self.2, at_2, Some(found.2))
                &&& may_resolve(&self.3, at_3, Some(found.3))
            },
            None => {
                ||| may_resolve(&self.0, at_0, None)
                ||| can_resolve(&self.0, at_0) && may_resolve(&self.1, at_1, None)
                ||| can_resolve(&self.0, at_0) && can_resolve(&self.1, at_1)
                    && may_resolve(&self.2, at_2, None)
                ||| can_resolve(&self.0, at_0) && can_resolve(&self.1, at_1)
                    && can_resolve(&self.2, at_2) && may_resolve(&self.3, at_3, None)
            },
        }
    }

    fn extract(&self, mut raw: RawParamSlice) -> (out: Option<Self::Params>) {
        let (a, b, c, d) = self;
        Some(
            (
                raw.extract_single(a)?,
                raw.extract_single(b)?,
                raw.extract_single(c)?,
                raw.extract_single(d)?,
            ),
        )
    }
}

impl<A: Param, B: Param, C: Param, D: Param, E: Param> ParamSet for (A, B, C, D, E) {
    type Params = (A::Output, B::Output, C::Output, D::Output, E::Output);

    open spec fn may_extract_set(&self, raw: Seq<Pair>, out: Option<Self::Params>) -> bool {
        let at_0 = raw;
        let at_1 = rest_after(at_0, self.0.spec_name());
        let at_2 = rest_after(at_1, self.1.spec_name());
        let at_3 = rest_after(at_2, self.2.spec_name());
        let at_4 = rest_after(at_3, self.3.spec_name());
        match out {
            Some(found) => {
                &&& may_resolve(&self.0, at_0, Some(found.0))
                &&& may_resolve(&self.1, at_1, Some(found.1))
                &&& may_resolve(&self.2, at_2, Some(found.2))
                &&& may_resolve(&self.3, at_3, Some(found.3))
                &&& may_resolve(&self.4, at_4, Some(found.4))
            },
            None => {
                ||| may_resolve(&self.0, at_0, None)
                ||| can_resolve(&self.0, at_0) && may_resolve(&self.1, at_1, None)
                ||| can_resolve(&self.0, at_0) && can_resolve(&self.1, at_1)
                    && may_resolve(&self.2, at_2, None)
                ||| can_resolve(&self.0, at_0) && can_resolve(&self.1, at_1)
                    && can_resolve(&self.2, at_2) && may_resolve(&self.3, at_3, None)
                ||| can_resolve(&self.0, at_0) && can_resolve(&self.1, at_1)
                    && can_resolve(&self.2, at_2) && can_resolve(&self.3, at_3)
                    && may_resolve(&self.4, at_4, None)
            },
        }
    }

    fn extract(&self, mut raw: RawParamSlice) -> (out: Option<Self::Params>) {
        let (a, b, c, d, e) = self;
        Some(
            (
                raw.extract_single(a)?,
                raw.extract_single(b)?,
                raw.extract_single(c)?,
                raw.extract_single(d)?,
                raw.extract_single(e)?,
            ),
        )
    }
}

impl<A: Param, B: Param, C: Param, D: Param, E: Param, F: Param> ParamSet for (A, B, C, D, E, F) {
    type Params = (A::Output, B::Output, C::Output, D::Output, E::Output, F::Output);

    open spec fn may_extract_set(&self, raw: Seq<Pair>, out: Option<Self::Params>) -> bool {
        let at_0 = raw;
        let at_1 = rest_after(at_0, self.0.spec_name());
        let at_2 = rest_after(at_1, self.1.spec_name());
        let at_3 = rest_after(at_2, self.2.spec_name());
        let at_4 = rest_after(at_3, self.3.spec_name());
        let at_5 = rest_after(at_4, self.4.spec_name());
        match out {
            Some(found) => {
                &&& may_resolve(&self.0, at_0, Some(found.0))
                &&& may_resolve(&self.1, at_1, Some(found.1))
                &&& may_resolve(&self.2, at_2, Some(found.2))
                &&& may_resolve(&self.3, at_3, Some(found.3))
                &&& may_resolve(&self.4, at_4, Some(found.4))
                &&& may_resolve(&self.5, at_5, Some(found.5))
            },
            None => {
                ||| may_resolve(&self.0, at_0, None)
                ||| can_resolve(&self.0, at_0) && may_resolve(&self.1, at_1, None)
                ||| can_resolve(&self.0, at_0) && can_resolve(&self.1, at_1)
                    && may_resolve(&self.2, at_2, None)
                ||| can_resolve(&self.0, at_0) && can_resolve(&self.1, at_1)
                    && can_resolve(&self.2, at_2) && may_resolve(&self.3, at_3, None)
                ||| can_resolve(&self.0, at_0) && can_resolve(&self.1, at_1)
                    && can_resolve(&self.2, at_2) && can_resolve(&self.3, at_3)
                    && may_resolve(&self.4, at_4, None)
                ||| can_resolve(&self.0, at_0) && can_resolve(&self.1, at_1)
                    && can_resolve(&self.2, at_2) && can_resolve(&self.3, at_3)
                    && can_resolve(&self.4, at_4) && may_resolve(&self.5, at_5, None)
            },
        }
    }

    fn extract(&self, mut raw: RawParamSlice) -> (out: Option<Self::Params>) {
        let (a, b, c, d, e, f) = self;
        Some(
            (
                raw.extract_single(a)?,
                raw.extract_single(b)?,
                raw.extract_single(c)?,
                raw.extract_single(d)?,
                raw.extract_single(e)?,
                raw.extract_single(f)?,
            ),
        )
    }
}

impl<A: Param, B: Param, C: Param, D: Param, E: Param, F: Param, G: Param> ParamSet for (
    A,
    B,
    C,
    D,
    E,
    F,
    G,
) {
    type Params = (A::Output, B::Output, C::Output, D::Output, E::Output, F::Output, G::Output);

    open spec fn may_extract_set(&self, raw: Seq<Pair>, out: Option<Self::Params>) -> bool {
        let at_0 = raw;
        let at_1 = rest_after(at_0, self.0.spec_name());
        let at_2 = rest_after(at_1, self.1.spec_name());
        let at_3 = rest_after(at_2, self.2.spec_name());
        let at_4 = rest_after(at_3, self.3.spec_name());
        let at_5 = rest_after(at_4, self.4.spec_name());
        let at_6 = rest_after(at_5, self.5.spec_name());
        match out {
            Some(found) => {
                &&& may_resolve(&self.0, at_0, Some(found.0))
                &&& may_resolve(&self.1, at_1, Some(found.1))
                &&& may_resolve(&self.2, at_2, Some(found.2))
                &&& may_resolve(&self.3, at_3, Some(found.3))
                &&& may_resolve(&self.4, at_4, Some(found.4))
                &&& may_resolve(&self.5, at_5, Some(found.5))
                &&& may_resolve(&self.6, at_6, Some(found.6))
            },
            None => {
                ||| may_resolve(&self.0, at_0, None)
                ||| can_resolve(&self.0, at_0) && may_resolve(&self.1, at_1, None)
                ||| can_resolve(&self.0, at_0) && can_resolve(&self.1, at_1)
                    && may_resolve(&self.2, at_2, None)
                ||| can_resolve(&self.0, at_0) && can_resolve(&self.1, at_1)
                    && can_resolve(&self.2, at_2) && may_resolve(&self.3, at_3, None)
                ||| can_resolve(&self.0, at_0) && can_resolve(&self.1, at_1)
                    && can_resolve(&self.2, at_2) && can_resolve(&self.3, at_3)
                    && may_resolve(&self.4, at_4, None)
                ||| can_resolve(&self.0, at_0) && can_resolve(&self.1, at_1)
                    && can_resolve(&self.2, at_2) && can_resolve(&self.3, at_3)
                    && can_resolve(&self.4, at_4) && may_resolve(&self.5, at_5, None)
                ||| can_resolve(&self.0, at_0) && can_resolve(&self.1, at_1)
                    && can_resolve(&self.2, at_2) && can_resolve(&self.3, at_3)
                    && can_resolve(&self.4, at_4) && can_resolve(&self.5, at_5)
                    && may_resolve(&self.6, at_6, None)
            },
        }
    }

    fn extract(&self, mut raw: RawParamSlice) -> (out: Option<Self::Params>) {
        let (a, b, c, d, e, f, g) = self;
        Some(
            (
                raw.extract_single(a)?,
                raw.extract_single(b)?,
                raw.extract_single(c)?,
                raw.extract_single(d)?,
                raw.extract_single(e)?,
                raw.extract_single(f)?,
                raw.extract_single(g)?,
            ),
        )
    }
}

impl<A: Param, B: Param, C: Param, D: Param, E: Param, F: Param, G: Param, H: Param> ParamSet for (
    A,
    B,
    C,
    D,
    E,
    F,
    G,
    H,
) {
    type Params = (
        A::Output,
        B::Output,
        C::Output,
        D::Output,
        E::Output,
        F::Output,
        G::Output,
        H::Output,
    );

    open spec fn may_extract_set(&self, raw: Seq<Pair>, out: Option<Self::Params>) -> bool {
        let at_0 = raw;
        let at_1 = rest_after(at_0, self.0.spec_name());
        let at_2 = rest_after(at_1, self.1.spec_name());
        let at_3 = rest_after(at_2, self.2.spec_name());
        let at_4 = rest_after(at_3, self.3.spec_name());
        let at_5 = rest_after(at_4, self.4.spec_name());
        let at_6 = rest_after(at_5, self.5.spec_name());
        let at_7 = rest_after(at_6, self.6.spec_name());
        match out {
            Some(found) => {
                &&& may_resolve(&self.0, at_0, Some(found.0))
                &&& may_resolve(&self.1, at_1, Some(found.1))
                &&& may_resolve(&self.2, at_2, Some(found.2))
                &&& may_resolve(&self.3, at_3, Some(found.3))
                &&& may_resolve(&self.4, at_4, Some(found.4))
                &&& may_resolve(&self.5, at_5, Some(found.5))
                &&& may_resolve(&self.6, at_6, Some(found.6))
                &&& may_resolve(&self.7, at_7, Some(found.7))
            },
            None => {
                ||| may_resolve(&self.0, at_0, None)
                ||| can_resolve(&self.0, at_0) && may_resolve(&self.1, at_1, None)
                ||| can_resolve(&self.0, at_0) && can_resolve(&self.1, at_1)
                    && may_resolve(&self.2, at_2, None)
                ||| can_resolve(&self.0, at_0) && can_resolve(&self.1, at_1)
                    && can_resolve(&self.2, at_2) && may_resolve(&self.3, at_3, None)
                ||| can_resolve(&self.0, at_0) && can_resolve(&self.1, at_1)
                    && can_resolve(&self.2, at_2) && can_resolve(&self.3, at_3)
                    && may_resolve(&self.4, at_4, None)
                ||| can_resolve(&self.0, at_0) && can_resolve(&self.1, at_1)
                    && can_resolve(&self.2, at_2) && can_resolve(&self.3, at_3)
                    && can_resolve(&self.4, at_4) && may_resolve(&self.5, at_5, None)
                ||| can_resolve(&self.0, at_0) && can_resolve(&self.1, at_1)
                    && can_resolve(&self.2, at_2) && can_resolve(&self.3, at_3)
                    && can_resolve(&self.4, at_4) && can_resolve(&self.5, at_5)
                    && may_resolve(&self.6, at_6, None)
                ||| can_resolve(&self.0, at_0) && can_resolve(&self.1, at_1)
                    && can_resolve(&self.2, at_2) && can_resolve(&self.3, at_3)
                    && can_resolve(&self.4, at_4) && can_resolve(&self.5, at_5)
                    && can_resolve(&self.6, at_6) && may_resolve(&self.7, at_7, None)
            },
        }
    }

    fn extract(&self, mut raw: RawParamSlice) -> (out: Option<Self::Params>) {
        let (a, b, c, d, e, f, g, h) = self;
        Some(
            (
                raw.extract_single(a)?,
                raw.extract_single(b)?,
                raw.extract_single(c)?,
                raw.extract_single(d)?,
                raw.extract_single(e)?,
                raw.extract_single(f)?,
                raw.extract_single(g)?,
                raw.extract_single(h)?,
            ),
        )
    }
}

} // verus!
