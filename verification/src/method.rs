//! HTTP request methods.
use vstd::prelude::*;

verus! {

/// An HTTP request method.
///
/// Its view is the name of the method. Two methods are the same if their names are.
#[derive(Debug)]
pub enum Method {
    OPTIONS,
    GET,
    POST,
    PUT,
    DELETE,
    HEAD,
    TRACE,
    CONNECT,
    PATCH,
    /// A method by its name.
    Extension(String),
}

impl View for Method {
    type V = Seq<char>;

    open spec fn view(&self) -> Seq<char> {
        match self {
            Method::OPTIONS => "OPTIONS"@,
            Method::GET => "GET"@,
            Method::POST => "POST"@,
            Method::PUT => "PUT"@,
            Method::DELETE => "DELETE"@,
            Method::HEAD => "HEAD"@,
            Method::TRACE => "TRACE"@,
            Method::CONNECT => "CONNECT"@,
            Method::PATCH => "PATCH"@,
            Method::Extension(name) => name@,
        }
    }
}

impl Clone for Method {
    fn clone(&self) -> (copy: Method)
        ensures
            copy == *self,
    {
        match self {
            Method::OPTIONS => Method::OPTIONS,
            Method::GET => Method::GET,
            Method::POST => Method::POST,
            Method::PUT => Method::PUT,
            Method::DELETE => Method::DELETE,
            Method::HEAD => Method::HEAD,
            Method::TRACE => Method::TRACE,
            Method::CONNECT => Method::CONNECT,
            Method::PATCH => Method::PATCH,
            Method::Extension(name) => Method::Extension(name.clone()),
        }
    }
}

impl PartialEq for Method {
    fn eq(&self, other: &Method) -> (same: bool) {
        self.as_str().to_owned() == other.as_str().to_owned()
    }
}

impl vstd::std_specs::cmp::PartialEqSpecImpl for Method {
    open spec fn obeys_eq_spec() -> bool {
        true
    }

    open spec fn eq_spec(&self, other: &Method) -> bool {
        self@ == other@
    }
}

impl Eq for Method {

}

impl Method {
    /// The method with this name.
    pub fn from_name(name: &str) -> (method: Method)
        ensures
            method@ == name@,
    {
        Method::Extension(name.to_owned())
    }

    /// The name of the method.
    pub fn as_str(&self) -> (name: &str)
        ensures
            name@ == self@,
    {
        match self {
            Method::OPTIONS => "OPTIONS",
            Method::GET => "GET",
            Method::POST => "POST",
            Method::PUT => "PUT",
            Method::DELETE => "DELETE",
            Method::HEAD => "HEAD",
            Method::TRACE => "TRACE",
            Method::CONNECT => "CONNECT",
            Method::PATCH => "PATCH",
            Method::Extension(name) => name.as_str(),
        }
    }
}

/// The names of a row of methods.
pub open spec fn names(methods: Seq<Method>) -> Seq<Seq<char>> {
    methods.map_values(|method: Method| method@)
}

/// Whether a method is among those of a list.
pub fn contains(methods: &[Method], method: &Method) -> (found: bool)
    ensures
        found == names(methods@).contains(method@),
{
    let mut i: usize = 0;
    while i < methods.len()
        invariant
            i <= methods@.len(),
            forall|k: int| 0 <= k < i ==> names(methods@)[k] != method@,
        decreases methods@.len() - i,
    {
        if methods[i] == *method {
            assert(names(methods@)[i as int] == method@);
            return true;
        }
        i = i + 1;
    }
    false
}

/// A copy of a list of methods.
pub fn to_vec(methods: &[Method]) -> (copy: Vec<Method>)
    ensures
        names(copy@) == names(methods@),
{
    let mut copy: Vec<Method> = Vec::new();
    let mut i: usize = 0;
    while i < methods.len()
        invariant
            i <= methods@.len(),
            copy@ == methods@.take(i as int),
        decreases methods@.len() - i,
    {
        copy.push(methods[i].clone());
        i = i + 1;
    }
    assert(copy@ == methods@);
    copy
}

/// Each method goes by the name that HTTP gives it, letter by letter.
pub proof fn law_methods_have_their_names(name: String)
    ensures
        Method::OPTIONS@ == seq!['O', 'P', 'T', 'I', 'O', 'N', 'S'],
        Method::GET@ == seq!['G', 'E', 'T'],
        Method::POST@ == seq!['P', 'O', 'S', 'T'],
        Method::PUT@ == seq!['P', 'U', 'T'],
        Method::DELETE@ == seq!['D', 'E', 'L', 'E', 'T', 'E'],
        Method::HEAD@ == seq!['H', 'E', 'A', 'D'],
        Method::TRACE@ == seq!['T', 'R', 'A', 'C', 'E'],
        Method::CONNECT@ == seq!['C', 'O', 'N', 'N', 'E', 'C', 'T'],
        Method::PATCH@ == seq!['P', 'A', 'T', 'C', 'H'],
        Method::Extension(name)@ == name@,
{
    reveal_strlit("OPTIONS");
    reveal_strlit("GET");
    reveal_strlit("POST");
    reveal_strlit("PUT");
    reveal_strlit("DELETE");
    reveal_strlit("HEAD");
    reveal_strlit("TRACE");
    reveal_strlit("CONNECT");
    reveal_strlit("PATCH");
}

/// A method is found in a list exactly if some entry of the list has its name.
pub proof fn law_found_by_name(methods: &[Method], method: &Method, found: bool)
    requires
        call_ensures(contains, (methods, method), found),
    ensures
        found <==> exists|i: int| 0 <= i < methods@.len() && (#[trigger] methods@[i])@ == method@,
{
    let listed = names(methods@);
    if listed.contains(method@) {
        let i = choose|i: int| 0 <= i < listed.len() && listed[i] == method@;
        assert(methods@[i]@ == method@);
    }
    if exists|i: int| 0 <= i < methods@.len() && (#[trigger] methods@[i])@ == method@ {
        let i = choose|i: int| 0 <= i < methods@.len() && (#[trigger] methods@[i])@ == method@;
        assert(listed[i] == method@);
    }
}

/// The names of a row of methods are theirs one by one, and a copy of the row has the same.
pub proof fn law_names_in_order(methods: Seq<Method>)
    ensures
        names(methods).len() == methods.len(),
        forall|i: int| 0 <= i < methods.len() ==> #[trigger] names(methods)[i] == methods[i]@,
{
}

/// A method that is made from a name gives that name back, and a method gives the name that it goes by.
pub proof fn law_names_come_back(name: &str, made: Method, method: Method, told: &str)
    ensures
        call_ensures(Method::from_name, (name,), made) && call_ensures(Method::as_str, (&made,), told)
            ==> told@ == name@,
        call_ensures(Method::as_str, (&method,), told) ==> told@ == method@,
{
}

/// A method is equal to another exactly if both go by the same name, and so to every copy of itself.
pub proof fn law_methods_are_their_names(method: Method, other: Method, same: bool)
    requires
        call_ensures(<Method as PartialEq>::eq, (&method, &other), same),
    ensures
        same == (method@ == other@),
        call_ensures(<Method as Clone>::clone, (&method,), other) ==> same,
{
}

/// A copy of a list of methods has as many entries, and each goes by the name of the one it copies.
pub proof fn law_copies_keep_their_names(methods: &[Method], copy: Vec<Method>)
    requires
        call_ensures(to_vec, (methods,), copy),
    ensures
        copy@.len() == methods@.len(),
        forall|i: int| 0 <= i < methods@.len() ==> (#[trigger] copy@[i])@ == methods@[i]@,
{
    law_names_in_order(methods@);
    law_names_in_order(copy@);
    assert forall|i: int| 0 <= i < methods@.len() implies (#[trigger] copy@[i])@ == methods@[i]@ by {
        assert(names(copy@)[i] == copy@[i]@);
        assert(names(methods@)[i] == methods@[i]@);
    }
}

} // verus!
