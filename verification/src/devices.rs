//! Finding audio devices by name.
use crate::text::{
    all_opt_chars, contains, first_true, is_first_true, is_substring, lemma_first_true_is,
    lemma_first_true_some, lemma_substring_of_itself, lowercase, opt_chars, same_text,
    to_lowercase,
};
use vstd::prelude::*;

verus! {

/// A device of this name counts as found: it has a name, and the name holds
/// `needle`.
pub open spec fn name_holds(name: Option<Seq<char>>, needle: Seq<char>) -> bool {
    name is Some && is_substring(name->0, needle)
}

/// The first of the names that holds `needle`.
pub open spec fn first_holding(names: Seq<Option<Seq<char>>>, needle: Seq<char>) -> Option<usize> {
    first_true(names.map_values(|name: Option<Seq<char>>| name_holds(name, needle)))
}

/// The names in lower case.
pub open spec fn lowercase_names(names: Seq<Option<Seq<char>>>) -> Seq<Option<Seq<char>>> {
    names.map_values(
        |name: Option<Seq<char>>|
            match name {
                Some(name) => Some(lowercase(name)),
                None => None,
            },
    )
}

/// The first of the names that holds `name`, whatever the case of both.
pub open spec fn device_named(names: Seq<Option<Seq<char>>>, name: Seq<char>) -> Option<usize> {
    first_holding(lowercase_names(names), lowercase(name))
}

/// The position of the first name that holds `needle` as it is written. A
/// device whose name could not be read is passed over.
pub fn position_holding(names: &[Option<String>], needle: &str) -> (found: Option<usize>)
    ensures
        found == first_holding(all_opt_chars(names@), needle@),
{
    let ghost hits = all_opt_chars(names@).map_values(
        |name: Option<Seq<char>>| name_holds(name, needle@),
    );
    let len: usize = names.len();
    let mut i: usize = 0;
    while i < len
        invariant
            i <= len,
            len == names@.len(),
            hits == all_opt_chars(names@).map_values(
                |name: Option<Seq<char>>| name_holds(name, needle@),
            ),
            forall|j: int| 0 <= j < i ==> !#[trigger] hits[j],
        decreases len - i,
    {
        let hit: bool = match &names[i] {
            Some(name) => contains(name, needle),
            None => false,
        };
        assert(hits[i as int] == hit);
        if hit {
            proof {
                lemma_first_true_is(hits, i as int);
            }
            return Some(i);
        }
        i = i + 1;
    }
    None
}

/// The position of the first device whose name holds `name`, whatever the case
/// of both.
pub fn find_by_name(names: &[Option<String>], name: &str) -> (found: Option<usize>)
    ensures
        found == device_named(all_opt_chars(names@), name@),
{
    let needle: String = to_lowercase(name);
    let mut lowered: Vec<Option<String>> = Vec::new();
    let mut i: usize = 0;
    while i < names.len()
        invariant
            i <= names@.len(),
            lowered@.len() == i,
            forall|j: int|
                0 <= j < i ==> opt_chars(#[trigger] lowered@[j]) == lowercase_names(
                    all_opt_chars(names@),
                )[j],
        decreases names@.len() - i,
    {
        let lower: Option<String> = match &names[i] {
            Some(name) => Some(to_lowercase(name)),
            None => None,
        };
        lowered.push(lower);
        i = i + 1;
    }
    assert(all_opt_chars(lowered@) =~= lowercase_names(all_opt_chars(names@)));
    position_holding(&lowered, &needle)
}

/// The first of the names that is `name`, letter for letter.
pub open spec fn exactly_named(names: Seq<Option<Seq<char>>>, name: Seq<char>) -> Option<usize> {
    first_true(names.map_values(|n: Option<Seq<char>>| n == Some(name)))
}

/// The position of the first device whose name is `name`, letter for letter.
pub fn find_exact(names: &[Option<String>], name: &str) -> (found: Option<usize>)
    ensures
        found == exactly_named(all_opt_chars(names@), name@),
{
    let ghost hits = all_opt_chars(names@).map_values(|n: Option<Seq<char>>| n == Some(name@));
    let len: usize = names.len();
    let mut i: usize = 0;
    while i < len
        invariant
            i <= len,
            len == names@.len(),
            hits == all_opt_chars(names@).map_values(|n: Option<Seq<char>>| n == Some(name@)),
            forall|j: int| 0 <= j < i ==> !#[trigger] hits[j],
        decreases len - i,
    {
        let hit: bool = match &names[i] {
            Some(n) => same_text(n, name),
            None => false,
        };
        assert(hits[i as int] == hit);
        if hit {
            proof {
                lemma_first_true_is(hits, i as int);
            }
            return Some(i);
        }
        i = i + 1;
    }
    None
}

/// Where a device has the name, `exactly_named` names one that has it, and
/// none that comes later.
pub proof fn lemma_exactly_named(names: Seq<Option<Seq<char>>>, i: int)
    requires
        0 <= i < names.len() <= usize::MAX,
        names[i] is Some,
    ensures
        ({
            let found = exactly_named(names, names[i]->0);
            found is Some && found->0 <= i && names[found->0 as int] == names[i]
        }),
{
    let hits = names.map_values(|n: Option<Seq<char>>| n == Some(names[i]->0));
    assert(hits[i]);
    lemma_first_true_some(hits, i);
    assert(hits[first_true(hits)->0 as int]);
}

/// No device before `i` has a name that holds the name of `i`, whatever the
/// case of both.
pub open spec fn none_before_holds(names: Seq<Option<Seq<char>>>, i: int) -> bool {
    forall|j: int|
        0 <= j < i ==> !name_holds(
            #[trigger] lowercase_names(names)[j],
            lowercase(names[i]->0),
        )
}

/// A device is found by its own name; or, where the name of one before it holds
/// that name too, the first such one is.
pub proof fn law_found_by_its_name(names: Seq<Option<Seq<char>>>, i: int)
    requires
        0 <= i < names.len() <= usize::MAX,
        names[i] is Some,
    ensures
        ({
            let found = device_named(names, names[i]->0);
            &&& found is Some
            &&& found->0 <= i
            &&& names[found->0 as int] is Some
            &&& is_substring(lowercase(names[found->0 as int]->0), lowercase(names[i]->0))
            &&& none_before_holds(names, i) ==> found->0 == i
        }),
{
    let needle = lowercase(names[i]->0);
    let lowered = lowercase_names(names);
    let hits = lowered.map_values(|name: Option<Seq<char>>| name_holds(name, needle));
    lemma_substring_of_itself(needle);
    assert(hits[i]);
    lemma_first_true_some(hits, i);
    assert(name_holds(lowered[first_true(hits)->0 as int], needle));
}

/// Names that are equal in lower case find the same device.
pub proof fn law_case_makes_no_difference(
    names: Seq<Option<Seq<char>>>,
    a: Seq<char>,
    b: Seq<char>,
)
    requires
        lowercase(a) == lowercase(b),
    ensures
        device_named(names, a) == device_named(names, b),
{
}

/// A playback device, as the system describes it.
pub struct RenderEndpoint {
    /// The name a user knows it by, where it could be read.
    pub friendly_name: Option<String>,
    /// Its raw device ID, or why there is none.
    pub id: Result<String, EndpointIdError>,
}

/// Why a playback device has no ID.
#[derive(Debug, Clone, Copy, PartialEq, Eq, Structural)]
pub enum EndpointIdError {
    Unavailable,
    NotUtf16,
}

impl EndpointIdError {
    /// The text of the error.
    pub open spec fn text(self) -> Seq<char> {
        match self {
            EndpointIdError::Unavailable => "failed to get device id"@,
            EndpointIdError::NotUtf16 => "device id was not valid UTF-16"@,
        }
    }

    /// The text of the error.
    pub fn message(self) -> (text: String)
        ensures
            text@ == self.text(),
    {
        match self {
            EndpointIdError::Unavailable => "failed to get device id".to_owned(),
            EndpointIdError::NotUtf16 => "device id was not valid UTF-16".to_owned(),
        }
    }
}

/// The names of a list of playback devices.
pub open spec fn endpoint_names(endpoints: Seq<RenderEndpoint>) -> Seq<Option<Seq<char>>> {
    endpoints.map_values(|e: RenderEndpoint| opt_chars(e.friendly_name))
}

/// Finds a currently-active render (playback) endpoint whose friendly name
/// contains `needle` (case-insensitive), returning its raw device ID string.
pub fn find_render_endpoint_id_by_name(endpoints: &[RenderEndpoint], needle: &str) -> (found:
    Result<Option<String>, EndpointIdError>)
    ensures
        match device_named(endpoint_names(endpoints@), needle@) {
            Some(i) => {
                &&& i < endpoints@.len()
                &&& match endpoints@[i as int].id {
                    Ok(id) => found is Ok && found->Ok_0 is Some && found->Ok_0->0@ == id@,
                    Err(e) => found == Err::<Option<String>, EndpointIdError>(e),
                }
            },
            None => found is Ok && found->Ok_0 is None,
        },
{
    let mut names: Vec<Option<String>> = Vec::new();
    let mut i: usize = 0;
    while i < endpoints.len()
        invariant
            i <= endpoints@.len(),
            names@.len() == i,
            forall|j: int|
                0 <= j < i ==> opt_chars(#[trigger] names@[j]) == endpoint_names(endpoints@)[j],
        decreases endpoints@.len() - i,
    {
        let name: Option<String> = match &endpoints[i].friendly_name {
            Some(name) => Some(name.clone()),
            None => None,
        };
        names.push(name);
        i = i + 1;
    }
    assert(all_opt_chars(names@) =~= endpoint_names(endpoints@));
    match find_by_name(&names, needle) {
        Some(i) => {
            proof {
                lemma_found_in_range(endpoint_names(endpoints@), needle@);
            }
            match &endpoints[i].id {
                Ok(id) => Ok(Some(id.clone())),
                Err(e) => Err(*e),
            }
        },
        None => Ok(None),
    }
}

/// What is found is one of the devices.
pub proof fn lemma_found_in_range(names: Seq<Option<Seq<char>>>, name: Seq<char>)
    requires
        names.len() <= usize::MAX,
    ensures
        device_named(names, name) matches Some(i) ==> i < names.len(),
{
    let hits = lowercase_names(names).map_values(
        |n: Option<Seq<char>>| name_holds(n, lowercase(name)),
    );
    if first_true(hits) is Some {
        let i = choose|i: int| is_first_true(hits, i);
        assert(is_first_true(hits, i));
    }
}

/// What a search by name finds: a device with a name that holds the wanted one,
/// in lower case, and no such device before it; where it finds none there is
/// none.
pub proof fn law_search_finds_the_first(names: Seq<Option<Seq<char>>>, name: Seq<char>)
    requires
        names.len() <= usize::MAX,
    ensures
        match device_named(names, name) {
            Some(i) => {
                &&& i < names.len()
                &&& names[i as int] is Some
                &&& is_substring(lowercase(names[i as int]->0), lowercase(name))
                &&& forall|j: int|
                    0 <= j < i && (#[trigger] names[j]) is Some ==> !is_substring(
                        lowercase(names[j]->0),
                        lowercase(name),
                    )
            },
            None => forall|j: int|
                0 <= j < names.len() && (#[trigger] names[j]) is Some ==> !is_substring(
                    lowercase(names[j]->0),
                    lowercase(name),
                ),
        },
{
    let hits = lowercase_names(names).map_values(
        |n: Option<Seq<char>>| name_holds(n, lowercase(name)),
    );
    crate::text::law_first_position(hits);
    assert forall|j: int| 0 <= j < names.len() implies #[trigger] hits[j] == (names[j] is Some
        && is_substring(lowercase(names[j]->0), lowercase(name))) by {}
    assert forall|j: int| 0 <= j < names.len() && (#[trigger] names[j]) is Some implies hits[j]
        == is_substring(lowercase(names[j]->0), lowercase(name)) by {}
}

/// The same of a search for the text as it is written.
pub proof fn law_plain_search_finds_the_first(names: Seq<Option<Seq<char>>>, needle: Seq<char>)
    requires
        names.len() <= usize::MAX,
    ensures
        match first_holding(names, needle) {
            Some(i) => {
                &&& i < names.len()
                &&& names[i as int] is Some
                &&& is_substring(names[i as int]->0, needle)
                &&& forall|j: int|
                    0 <= j < i && (#[trigger] names[j]) is Some ==> !is_substring(
                        names[j]->0,
                        needle,
                    )
            },
            None => forall|j: int|
                0 <= j < names.len() && (#[trigger] names[j]) is Some ==> !is_substring(
                    names[j]->0,
                    needle,
                ),
        },
{
    let hits = names.map_values(|n: Option<Seq<char>>| name_holds(n, needle));
    crate::text::law_first_position(hits);
    assert forall|j: int| 0 <= j < names.len() && (#[trigger] names[j]) is Some implies hits[j]
        == is_substring(names[j]->0, needle) by {}
}

/// What a search for an exact name finds: the first device of that name; where
/// it finds none there is none.
pub proof fn law_exact_search_finds_the_first(names: Seq<Option<Seq<char>>>, name: Seq<char>)
    requires
        names.len() <= usize::MAX,
    ensures
        match exactly_named(names, name) {
            Some(i) => {
                &&& i < names.len()
                &&& names[i as int] == Some(name)
                &&& forall|j: int| 0 <= j < i ==> #[trigger] names[j] != Some(name)
            },
            None => forall|j: int| 0 <= j < names.len() ==> #[trigger] names[j] != Some(name),
        },
{
    let hits = names.map_values(|n: Option<Seq<char>>| n == Some(name));
    crate::text::law_first_position(hits);
    assert forall|j: int| 0 <= j < names.len() implies (#[trigger] names[j] == Some(name))
        == hits[j] by {}
}

/// The names of playback devices are those that the system gave, and an ID that
/// cannot be had is told by its reason.
pub proof fn law_endpoint_names_and_errors(endpoints: Seq<RenderEndpoint>)
    ensures
        endpoint_names(endpoints).len() == endpoints.len(),
        forall|i: int|
            0 <= i < endpoints.len() ==> #[trigger] endpoint_names(endpoints)[i] == (
            match endpoints[i].friendly_name {
                Some(name) => Some(name@),
                None => None,
            }),
        EndpointIdError::Unavailable.text() == "failed to get device id"@,
        EndpointIdError::NotUtf16.text() == "device id was not valid UTF-16"@,
{
}

/// The ID that is found belongs to the first playback device whose name holds
/// the wanted one, whatever the case; where that device has none its reason is
/// told; and where there is no such device, nothing is found.
pub proof fn law_endpoint_of_a_name(
    endpoints: &[RenderEndpoint],
    needle: &str,
    found: Result<Option<String>, EndpointIdError>,
)
    requires
        call_ensures(find_render_endpoint_id_by_name, (endpoints, needle), found),
    ensures
        found matches Ok(Some(id)) ==> exists|i: int|
            {
                &&& 0 <= i < endpoints@.len()
                &&& device_named(endpoint_names(endpoints@), needle@) == Some(i as usize)
                &&& (#[trigger] endpoints@[i]).id is Ok
                &&& endpoints@[i].id->Ok_0@ == id@
            },
        found matches Err(e) ==> exists|i: int|
            {
                &&& 0 <= i < endpoints@.len()
                &&& device_named(endpoint_names(endpoints@), needle@) == Some(i as usize)
                &&& (#[trigger] endpoints@[i]).id == Err::<String, EndpointIdError>(e)
            },
        found is Ok && found->Ok_0 is None <==> device_named(
            endpoint_names(endpoints@),
            needle@,
        ) is None,
{
    if device_named(endpoint_names(endpoints@), needle@) is Some {
        let i = device_named(endpoint_names(endpoints@), needle@)->0 as int;
        assert(endpoints@[i].id is Ok || endpoints@[i].id is Err);
    }
}

/// What calls of the searches answer: a device whose name holds the wanted one,
/// in lower case, or is it, letter for letter, and none such before it; where
/// they answer nothing there is none.
pub proof fn law_search_calls(
    names: &[Option<String>],
    name: &str,
    found: Option<usize>,
    exact: Option<usize>,
)
    requires
        names@.len() <= usize::MAX,
        call_ensures(find_by_name, (names, name), found),
        call_ensures(find_exact, (names, name), exact),
    ensures
        match found {
            Some(i) => {
                &&& i < names@.len()
                &&& names@[i as int] is Some
                &&& is_substring(lowercase(names@[i as int]->0@), lowercase(name@))
                &&& forall|j: int|
                    0 <= j < i && (#[trigger] names@[j]) is Some ==> !is_substring(
                        lowercase(names@[j]->0@),
                        lowercase(name@),
                    )
            },
            None => forall|j: int|
                0 <= j < names@.len() && (#[trigger] names@[j]) is Some ==> !is_substring(
                    lowercase(names@[j]->0@),
                    lowercase(name@),
                ),
        },
        match exact {
            Some(i) => {
                &&& i < names@.len()
                &&& names@[i as int] is Some
                &&& names@[i as int]->0@ == name@
                &&& forall|j: int|
                    0 <= j < i && (#[trigger] names@[j]) is Some ==> names@[j]->0@ != name@
            },
            None => forall|j: int|
                0 <= j < names@.len() && (#[trigger] names@[j]) is Some ==> names@[j]->0@ != name@,
        },
{
    let all = all_opt_chars(names@);
    law_search_finds_the_first(all, name@);
    law_exact_search_finds_the_first(all, name@);
    assert forall|j: int| 0 <= j < names@.len() && (#[trigger] names@[j]) is Some implies all[j]
        == Some(names@[j]->0@) by {}
}

} // verus!
