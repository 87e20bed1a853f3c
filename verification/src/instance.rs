//! The id that tells one instance of a shared object from every other.

use vstd::prelude::*;

verus! {

/// Whether `c` is a hexadecimal digit in lower case.
pub open spec fn is_lower_hex(c: char) -> bool {
    ('0' <= c && c <= '9') || ('a' <= c && c <= 'f')
}

/// Whether `text` is a random (version 4) UUID in its hyphenated form:
/// `xxxxxxxx-xxxx-4xxx-yxxx-xxxxxxxxxxxx`, where each `x` is a hexadecimal digit in lower
/// case and `y` is one of `8`, `9`, `a` and `b`.
pub open spec fn is_random_uuid(text: Seq<char>) -> bool {
    &&& text.len() == 36
    &&& forall|i: int|
        0 <= i < 36 ==> if i == 8 || i == 13 || i == 18 || i == 23 {
            #[trigger] text[i] == '-'
        } else {
            is_lower_hex(text[i])
        }
    &&& text[14] == '4'
    &&& (text[19] == '8' || text[19] == '9' || text[19] == 'a' || text[19] == 'b')
}

/// Calls `uuid::Uuid::new_v4` and writes the result out with `to_string`. Trusted: it has
/// the form of a random UUID. Which one it is, chance decides.
#[verifier::external_body]
pub(crate) fn new_instance_id() -> (id: String)
    ensures
        is_random_uuid(id@),
{
    uuid::Uuid::new_v4().to_string()
}

/// Whether chance gave the id `id`: whether [`new_instance_id`] can have returned it.
/// Nothing but a call shows that of an id.
pub closed spec fn chance_gave(id: Seq<char>) -> bool {
    exists|text: String| #[trigger] call_ensures(new_instance_id, (), text) && text@ == id
}

/// An id that chance gave is one that was made up by the generator of random UUIDs.
proof fn lemma_id_was_made_up(id: Seq<char>) -> (text: String)
    requires
        chance_gave(id),
    ensures
        call_ensures(new_instance_id, (), text),
        text@ == id,
{
    choose|text: String| #[trigger] call_ensures(new_instance_id, (), text) && text@ == id
}

/// The answer of `generator`.
fn ask<F: FnOnce() -> String>(generator: F) -> (id: String)
    requires
        generator.requires(()),
    ensures
        generator.ensures((), id),
{
    generator()
}

/// An id of its own for one instance.
pub(crate) fn fresh_id() -> (id: String)
    ensures
        is_random_uuid(id@),
        chance_gave(id@),
{
    ask(new_instance_id)
}

/// An id that chance gave has the form of a random UUID: thirty-six characters in five
/// groups with hyphens between them, all others hexadecimal digits in lower case, with the
/// version and the variant in their places.
pub proof fn law_ids_are_random_uuids(id: Seq<char>)
    requires
        chance_gave(id),
    ensures
        is_random_uuid(id),
        id.len() == 36,
        forall|i: int|
            0 <= i < 36 ==> (#[trigger] id[i] == '-' <==> i == 8 || i == 13 || i == 18 || i == 23),
        forall|i: int|
            0 <= i < 36 && #[trigger] id[i] != '-' ==> '0' <= id[i] <= '9' || 'a' <= id[i] <= 'f',
        id[14] == '4',
        id[19] == '8' || id[19] == '9' || id[19] == 'a' || id[19] == 'b',
{
    let text = lemma_id_was_made_up(id);
}

} // verus!
