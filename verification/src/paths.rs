//! Where the nodes of a shared object stand in ZooKeeper.
//!
//! ```text
//! /<dir>                  where the data is stored
//! /<dir>/payload          the object, as JSON
//! /<dir>/listeners        ephemeral records with the ids of every active listener
//! /<dir>/write_lock       the latch that writers queue at
//! ```

use vstd::prelude::*;

verus! {

/// The node that holds the object.
pub open spec fn spec_payload_path(dir: Seq<char>) -> Seq<char> {
    dir + "/payload"@
}

/// The node that writers queue at.
pub open spec fn spec_write_lock_path(dir: Seq<char>) -> Seq<char> {
    dir + "/write_lock"@
}

/// The node under which the listeners are recorded.
pub open spec fn spec_listeners_path(dir: Seq<char>) -> Seq<char> {
    dir + "/listeners"@
}

/// The record of one listener.
pub open spec fn spec_listener_path(dir: Seq<char>, id: Seq<char>) -> Seq<char> {
    spec_listeners_path(dir) + "/"@ + id
}

/// The path of the payload node of the object in `dir`.
pub fn payload_path(dir: &str) -> (path: String)
    ensures
        path@ == spec_payload_path(dir@),
{
    let mut path = dir.to_owned();
    path.append("/payload");
    path
}

/// The path of the write lock of the object in `dir`.
pub fn write_lock_path(dir: &str) -> (path: String)
    ensures
        path@ == spec_write_lock_path(dir@),
{
    let mut path = dir.to_owned();
    path.append("/write_lock");
    path
}

/// The path under which the listeners of the object in `dir` are recorded.
pub fn listeners_path(dir: &str) -> (path: String)
    ensures
        path@ == spec_listeners_path(dir@),
{
    let mut path = dir.to_owned();
    path.append("/listeners");
    path
}

/// The path of the record of the listener `id` of the object in `dir`.
pub fn listener_path(dir: &str, id: &str) -> (path: String)
    ensures
        path@ == spec_listener_path(dir@, id@),
{
    let mut path = listeners_path(dir);
    path.append("/");
    path.append(id);
    path
}

/// The nodes of one object are apart from each other.
pub proof fn law_nodes_are_apart(dir: Seq<char>, id: Seq<char>)
    ensures
        spec_payload_path(dir) != dir,
        spec_write_lock_path(dir) != dir,
        spec_listeners_path(dir) != dir,
        spec_listener_path(dir, id) != dir,
        spec_payload_path(dir) != spec_write_lock_path(dir),
        spec_payload_path(dir) != spec_listeners_path(dir),
        spec_payload_path(dir) != spec_listener_path(dir, id),
        spec_write_lock_path(dir) != spec_listeners_path(dir),
        spec_write_lock_path(dir) != spec_listener_path(dir, id),
        spec_listeners_path(dir) != spec_listener_path(dir, id),
{
    reveal_strlit("/payload");
    reveal_strlit("/write_lock");
    reveal_strlit("/listeners");
    reveal_strlit("/");
    assert(spec_payload_path(dir).len() == dir.len() + 8);
    assert(spec_write_lock_path(dir).len() == dir.len() + 11);
    assert(spec_listeners_path(dir).len() == dir.len() + 10);
    assert(spec_listener_path(dir, id).len() == dir.len() + 11 + id.len());
    assert(spec_write_lock_path(dir)[dir.len() as int + 1] == 'w');
    assert(spec_listener_path(dir, id)[dir.len() as int + 1] == 'l');
}

/// The nodes of an object stand below its directory, under the names that every client
/// knows.
pub proof fn law_nodes_stand_below_the_directory(dir: Seq<char>, id: Seq<char>)
    ensures
        dir.is_prefix_of(spec_payload_path(dir)),
        spec_payload_path(dir).skip(dir.len() as int) == "/payload"@,
        dir.is_prefix_of(spec_write_lock_path(dir)),
        spec_write_lock_path(dir).skip(dir.len() as int) == "/write_lock"@,
        dir.is_prefix_of(spec_listeners_path(dir)),
        spec_listeners_path(dir).skip(dir.len() as int) == "/listeners"@,
        dir.is_prefix_of(spec_listener_path(dir, id)),
        spec_listener_path(dir, id).skip(dir.len() as int) == "/listeners/"@ + id,
{
    reveal_strlit("/listeners");
    reveal_strlit("/");
    reveal_strlit("/listeners/");
    assert(spec_payload_path(dir).skip(dir.len() as int) =~= "/payload"@);
    assert(spec_write_lock_path(dir).skip(dir.len() as int) =~= "/write_lock"@);
    assert(spec_listeners_path(dir).skip(dir.len() as int) =~= "/listeners"@);
    assert("/listeners"@ + "/"@ =~= "/listeners/"@);
    assert(spec_listener_path(dir, id).skip(dir.len() as int) =~= "/listeners/"@ + id);
}

/// Objects in different directories have different payload nodes, different locks and
/// different places for their listeners.
pub proof fn law_nodes_are_not_shared(dir: Seq<char>, other: Seq<char>)
    requires
        dir != other,
    ensures
        spec_payload_path(dir) != spec_payload_path(other),
        spec_write_lock_path(dir) != spec_write_lock_path(other),
        spec_listeners_path(dir) != spec_listeners_path(other),
{
    lemma_suffix_is_injective(dir, other, "/payload"@);
    lemma_suffix_is_injective(dir, other, "/write_lock"@);
    lemma_suffix_is_injective(dir, other, "/listeners"@);
}

/// Different listeners of one object have different records.
pub proof fn law_listener_records_are_apart(dir: Seq<char>, id: Seq<char>, other: Seq<char>)
    requires
        id != other,
    ensures
        spec_listener_path(dir, id) != spec_listener_path(dir, other),
{
    let parent = spec_listeners_path(dir) + "/"@;
    let n = parent.len() as int;
    assert((parent + id).skip(n) =~= id);
    assert((parent + other).skip(n) =~= other);
}

proof fn lemma_suffix_is_injective(a: Seq<char>, b: Seq<char>, suffix: Seq<char>)
    requires
        a != b,
    ensures
        a + suffix != b + suffix,
{
    assert((a + suffix).take((a + suffix).len() - suffix.len()) =~= a);
    assert((b + suffix).take((b + suffix).len() - suffix.len()) =~= b);
}

} // verus!
