//! The template variables of an email: a JSON object, kept as `serde_json` holds it.
use vstd::prelude::*;

verus! {

/// `serde_json::Map`, the object type of `serde_json`.
#[verifier::external_type_specification]
#[verifier::external_body]
#[verifier::reject_recursive_types(K)]
#[verifier::reject_recursive_types(V)]
pub struct ExJsonMap<K, V>(serde_json::Map<K, V>);

/// `serde_json::Value`, any JSON value.
#[verifier::external_type_specification]
#[verifier::external_body]
pub struct ExJsonValue(serde_json::Value);

/// Template variables by name.
pub type Variables = serde_json::Map<String, serde_json::Value>;

/// A JSON value as a mathematical tree. A number that is not an integer is
/// known by the text `serde_json` writes for it.
pub enum JsonTree {
    Null,
    Bool(bool),
    Integer(int),
    Fraction(Seq<char>),
    Text(Seq<char>),
    List(Seq<JsonTree>),
    Object(Map<Seq<char>, JsonTree>),
}

/// Whether a value is free of fractions and nests lists and objects at most
/// `depth` deep.
pub open spec fn reads_back(tree: JsonTree, depth: nat) -> bool
    decreases depth,
{
    match tree {
        JsonTree::Fraction(_) => false,
        JsonTree::List(items) => depth > 0 && forall|i: int|
            0 <= i < items.len() ==> reads_back(#[trigger] items[i], (depth - 1) as nat),
        JsonTree::Object(members) => depth > 0 && forall|name: Seq<char>| #[trigger]
            members.contains_key(name) ==> reads_back(members[name], (depth - 1) as nat),
        _ => true,
    }
}

/// Whether variables are free of fractions and nest no deeper than the JSON
/// reader goes, which is 127 levels with the object of the variables itself.
pub open spec fn all_read_back(values: Map<Seq<char>, JsonTree>) -> bool {
    forall|name: Seq<char>| #[trigger] values.contains_key(name) ==> reads_back(values[name], 126)
}

/// The values that an object of `serde_json` holds, by name.
pub uninterp spec fn variable_values(
    variables: serde_json::Map<String, serde_json::Value>,
) -> Map<Seq<char>, JsonTree>;

/// What `serde_json::to_string` writes for an object: its JSON text, or the
/// message of its error.
pub uninterp spec fn variables_json(values: Map<Seq<char>, JsonTree>) -> Result<
    Seq<char>,
    Seq<char>,
>;

/// What `serde_json::from_str` reads from a text as an object: its values, or the
/// message of its error.
pub uninterp spec fn variables_parsed(text: Seq<char>) -> Result<
    Map<Seq<char>, JsonTree>,
    Seq<char>,
>;

/// `serde_json::to_string` on an object, with the error as its message.
///
/// Claims that it succeeds, that the outcome depends on the values alone (an object keeps its
/// members in the order of their names), and that `serde_json::from_str` reads the text back as the same values, unless there
/// is a fraction among them (which it may read with a rounding error) or they
/// nest deeper than it goes.
#[verifier::external_body]
pub(crate) fn encode_variables(variables: &Variables) -> (encoded: Result<String, String>)
    ensures
        match encoded {
            Ok(text) => variables_json(variable_values(*variables)) == (Ok::<
                Seq<char>,
                Seq<char>,
            >(text@)),
            Err(message) => variables_json(variable_values(*variables)) == (Err::<
                Seq<char>,
                Seq<char>,
            >(message@)),
        },
        encoded is Ok,
        encoded matches Ok(text) ==> (all_read_back(variable_values(*variables))
            ==> variables_parsed(text@) == (Ok::<Map<Seq<char>, JsonTree>, Seq<char>>(
            variable_values(*variables),
        ))),
{
    serde_json::to_string(variables).map_err(|error| error.to_string())
}

/// `serde_json::from_str` into an object, with the error as its message.
///
/// Claims no more than that the outcome depends on the text alone.
#[verifier::external_body]
pub(crate) fn decode_variables(text: &str) -> (decoded: Result<Variables, String>)
    ensures
        match decoded {
            Ok(variables) => variables_parsed(text@) == (Ok::<
                Map<Seq<char>, JsonTree>,
                Seq<char>,
            >(variable_values(variables))),
            Err(message) => variables_parsed(text@) == (Err::<
                Map<Seq<char>, JsonTree>,
                Seq<char>,
            >(message@)),
        },
{
    serde_json::from_str(text).map_err(|error| error.to_string())
}

/// Decoded variables by their values, or the message of the decoder.
pub open spec fn decoded_values(decoded: Result<Variables, String>) -> Result<
    Map<Seq<char>, JsonTree>,
    Seq<char>,
> {
    match decoded {
        Ok(variables) => Ok(variable_values(variables)),
        Err(message) => Err(message@),
    }
}

/// What was decoded is known by its values, and a failure by its message.
pub proof fn law_decoded_variables_keep_their_values(variables: Variables, message: String)
    ensures
        decoded_values(Ok(variables)) == (Ok::<Map<Seq<char>, JsonTree>, Seq<char>>(
            variable_values(variables),
        )),
        decoded_values(Err(message)) == (Err::<Map<Seq<char>, JsonTree>, Seq<char>>(message@)),
{
}

} // verus!
