//! Counting the objects that scripts create and release once the device has
//! given them handles.
use vstd::prelude::*;

use crate::command::{resolve, Command, Handle, Object, ObjectKind};
use crate::laws::once::occurrences;
use crate::script::{creations, lemma_creations_add, release_count};
use crate::tables::{lists_values, lists_values_of, lookup};
use crate::texture::TextureKey;

verus! {

/// How many objects of this kind a script creates to which the device gives
/// this handle. `created` are the handles of the script's creations, in order.
pub open spec fn creation_count(
    script: Seq<Command>,
    created: Seq<u64>,
    kind: ObjectKind,
    raw: u64,
) -> nat
    decreases script.len(),
{
    if script.len() == 0 {
        0
    } else {
        let number = creations(script.drop_last()) as int;
        creation_count(script.drop_last(), created, kind, raw) + (if script.last().creates()
            == Some(kind) && created[number] == raw {
            1nat
        } else {
            0
        })
    }
}

/// Whether the command ends the life of the object of this kind to which the
/// device gave this handle.
pub open spec fn ends(command: Command, created: Seq<u64>, kind: ObjectKind, raw: u64) -> bool {
    match command.releases() {
        Some(object) => object.kind == kind && resolve(object.handle, created) == raw,
        None => false,
    }
}

/// How many commands of a script end the life of the object of this kind to
/// which the device gave this handle.
pub open spec fn end_count(
    script: Seq<Command>,
    created: Seq<u64>,
    kind: ObjectKind,
    raw: u64,
) -> nat
    decreases script.len(),
{
    if script.len() == 0 {
        0
    } else {
        end_count(script.drop_last(), created, kind, raw) + (if ends(
            script.last(),
            created,
            kind,
            raw,
        ) {
            1nat
        } else {
            0
        })
    }
}

/// The textures that have this handle in the map.
pub open spec fn holding(map: Map<TextureKey, u64>, raw: u64) -> Set<TextureKey> {
    map.dom().filter(|key: TextureKey| map[key] == raw)
}

/// How many textures have this handle in the map.
pub open spec fn holders(map: Map<TextureKey, u64>, raw: u64) -> nat {
    holding(map, raw).len()
}

pub proof fn lemma_creation_count_add(
    first: Seq<Command>,
    second: Seq<Command>,
    created: Seq<u64>,
    kind: ObjectKind,
    raw: u64,
)
    requires
        creations(first) + creations(second) <= created.len(),
    ensures
        creation_count(first + second, created, kind, raw) == creation_count(
            first,
            created,
            kind,
            raw,
        ) + creation_count(second, created.skip(creations(first) as int), kind, raw),
    decreases second.len(),
{
    if second.len() == 0 {
        assert(first + second =~= first);
    } else {
        lemma_creation_count_add(first, second.drop_last(), created, kind, raw);
        assert((first + second).drop_last() =~= first + second.drop_last());
        lemma_creations_add(first, second.drop_last());
    }
}

pub proof fn lemma_end_count_add(
    first: Seq<Command>,
    second: Seq<Command>,
    created: Seq<u64>,
    kind: ObjectKind,
    raw: u64,
)
    ensures
        end_count(first + second, created, kind, raw) == end_count(first, created, kind, raw)
            + end_count(second, created, kind, raw),
    decreases second.len(),
{
    if second.len() == 0 {
        assert(first + second =~= first);
    } else {
        lemma_end_count_add(first, second.drop_last(), created, kind, raw);
        assert((first + second).drop_last() =~= first + second.drop_last());
    }
}

/// A script of which no command creates an object creates none.
pub proof fn lemma_none_created(
    script: Seq<Command>,
    created: Seq<u64>,
    kind: ObjectKind,
    raw: u64,
)
    requires
        forall|i: int| 0 <= i < script.len() ==> (#[trigger] script[i]).creates() is None,
    ensures
        creations(script) == 0,
        creation_count(script, created, kind, raw) == 0,
    decreases script.len(),
{
    if script.len() > 0 {
        let shorter = script.drop_last();
        assert forall|i: int| 0 <= i < shorter.len() implies (
        #[trigger] shorter[i]).creates() is None by {
            assert(shorter[i] == script[i]);
        }
        lemma_none_created(shorter, created, kind, raw);
        assert(script.last() == script[script.len() - 1]);
    }
}

/// A script of which no command releases an object of a kind ends none of that
/// kind.
pub proof fn lemma_none_ended(
    script: Seq<Command>,
    created: Seq<u64>,
    kind: ObjectKind,
    raw: u64,
)
    requires
        forall|i: int|
            0 <= i < script.len() && (#[trigger] script[i]).releases() is Some
                ==> script[i].releases()->0.kind != kind,
    ensures
        end_count(script, created, kind, raw) == 0,
    decreases script.len(),
{
    if script.len() > 0 {
        let shorter = script.drop_last();
        assert forall|i: int|
            0 <= i < shorter.len() && (#[trigger] shorter[i]).releases() is Some implies
            shorter[i].releases()->0.kind != kind by {
            assert(shorter[i] == script[i]);
        }
        lemma_none_ended(shorter, created, kind, raw);
        assert(script.last() == script[script.len() - 1]);
    }
}

/// The counts after one command more.
pub proof fn lemma_counts_step(
    script: Seq<Command>,
    i: int,
    created: Seq<u64>,
    kind: ObjectKind,
    raw: u64,
)
    requires
        0 <= i < script.len(),
    ensures
        creations(script.take(i + 1)) == creations(script.take(i)) + (if script[i].creates()
            is Some {
            1nat
        } else {
            0
        }),
        creation_count(script.take(i + 1), created, kind, raw) == creation_count(
            script.take(i),
            created,
            kind,
            raw,
        ) + (if script[i].creates() == Some(kind) && created[creations(script.take(i)) as int]
            == raw {
            1nat
        } else {
            0
        }),
        end_count(script.take(i + 1), created, kind, raw) == end_count(
            script.take(i),
            created,
            kind,
            raw,
        ) + (if ends(script[i], created, kind, raw) {
            1nat
        } else {
            0
        }),
{
    assert(script.take(i + 1).drop_last() =~= script.take(i));
    assert(script.take(i + 1).last() == script[i]);
}

/// The counts of no command.
pub proof fn lemma_counts_start(
    script: Seq<Command>,
    created: Seq<u64>,
    kind: ObjectKind,
    raw: u64,
)
    ensures
        creations(script.take(0)) == 0,
        creation_count(script.take(0), created, kind, raw) == 0,
        end_count(script.take(0), created, kind, raw) == 0,
        script.take(script.len() as int) == script,
{
    assert(script.take(0) =~= Seq::<Command>::empty());
    assert(script.take(script.len() as int) =~= script);
}

/// The counts of a single command.
pub proof fn lemma_counts_single(
    command: Command,
    created: Seq<u64>,
    kind: ObjectKind,
    raw: u64,
)
    ensures
        creations(seq![command]) == (if command.creates() is Some {
            1nat
        } else {
            0
        }),
        creation_count(seq![command], created, kind, raw) == (if command.creates() == Some(kind)
            && created[0] == raw {
            1nat
        } else {
            0
        }),
        end_count(seq![command], created, kind, raw) == (if ends(command, created, kind, raw) {
            1nat
        } else {
            0
        }),
{
    lemma_counts_start(seq![command], created, kind, raw);
    lemma_counts_step(seq![command], 0, created, kind, raw);
}

/// In a script that names only objects that were there before it, the objects
/// that are ended go by their handles.
pub proof fn lemma_known_ends(
    script: Seq<Command>,
    created: Seq<u64>,
    kind: ObjectKind,
    raw: u64,
)
    requires
        forall|i: int|
            0 <= i < script.len() && (#[trigger] script[i]).releases() is Some
                ==> script[i].releases()->0.handle is Known,
    ensures
        end_count(script, created, kind, raw) == release_count(script, kind, Handle::Known(raw)),
    decreases script.len(),
{
    if script.len() > 0 {
        let shorter = script.drop_last();
        assert forall|i: int|
            0 <= i < shorter.len() && (#[trigger] shorter[i]).releases() is Some implies
            shorter[i].releases()->0.handle is Known by {
            assert(shorter[i] == script[i]);
        }
        lemma_known_ends(shorter, created, kind, raw);
        let last = script.last();
        assert(last == script[script.len() - 1]);
        assert(ends(last, created, kind, raw) <==> last.releases() == Some(
            Object { kind, handle: Handle::Known(raw) },
        ));
    }
}

pub proof fn lemma_holders_empty(raw: u64)
    ensures
        holders(Map::empty(), raw) == 0,
{
    assert(holding(Map::empty(), raw) =~= Set::<TextureKey>::empty());
}

pub proof fn lemma_holders_insert(
    map: Map<TextureKey, u64>,
    key: TextureKey,
    value: u64,
    raw: u64,
)
    requires
        map.dom().finite(),
        !map.contains_key(key),
    ensures
        map.insert(key, value).dom().finite(),
        holders(map.insert(key, value), raw) == holders(map, raw) + (if value == raw {
            1nat
        } else {
            0
        }),
{
    let larger = map.insert(key, value);
    let before = holding(map, raw);
    let after = holding(larger, raw);
    if value == raw {
        assert(after =~= before.insert(key));
    } else {
        assert(after =~= before);
    }
}

pub proof fn lemma_holders_remove(map: Map<TextureKey, u64>, key: TextureKey, raw: u64)
    requires
        map.dom().finite(),
    ensures
        map.remove(key).dom().finite(),
        holders(map, raw) == holders(map.remove(key), raw) + (if lookup(map, key) == Some(raw) {
            1nat
        } else {
            0
        }),
{
    let smaller = map.remove(key);
    let before = holding(map, raw);
    let after = holding(smaller, raw);
    if lookup(map, key) == Some(raw) {
        assert(after =~= before.remove(key));
    } else {
        assert(after =~= before);
    }
}

/// The textures among these that have this handle in the map.
spec fn holding_among(
    map: Map<TextureKey, u64>,
    keys: Seq<TextureKey>,
    raw: u64,
) -> Set<TextureKey> {
    Set::new(|key: TextureKey| keys.contains(key) && map[key] == raw)
}

/// A list of the map's values has each handle as often as textures hold it.
pub proof fn lemma_holders_listed(map: Map<TextureKey, u64>, values: Seq<u64>, raw: u64)
    requires
        lists_values(map, values),
    ensures
        occurrences(values, raw) == holders(map, raw),
{
    let keys = choose|keys: Seq<TextureKey>| #[trigger] lists_values_of(map, keys, values);
    lemma_holders_of_prefix(map, keys, values, raw, keys.len());
    assert(keys.take(keys.len() as int) =~= keys);
    assert(values.take(values.len() as int) =~= values);
    assert(holding(map, raw) =~= holding_among(map, keys, raw));
}

proof fn lemma_holders_of_prefix(
    map: Map<TextureKey, u64>,
    keys: Seq<TextureKey>,
    values: Seq<u64>,
    raw: u64,
    n: nat,
)
    requires
        lists_values_of(map, keys, values),
        n <= keys.len(),
    ensures
        ({
            let listed = holding_among(map, keys.take(n as int), raw);
            &&& listed.finite()
            &&& occurrences(values.take(n as int), raw) == listed.len()
        }),
    decreases n,
{
    let listed = holding_among(map, keys.take(n as int), raw);
    if n == 0 {
        assert(listed =~= Set::<TextureKey>::empty());
    } else {
        let last = n - 1;
        let fewer = holding_among(map, keys.take(last), raw);
        lemma_holders_of_prefix(map, keys, values, raw, last as nat);
        assert(values.take(n as int).drop_last() =~= values.take(last));
        assert(keys.take(n as int)[last] == keys[last]);
        assert forall|k: TextureKey| keys.take(n as int).contains(k) <==> (keys.take(
            last,
        ).contains(k) || k == keys[last]) by {
            if keys.take(last).contains(k) {
                let i = choose|i: int| 0 <= i < last && keys.take(last)[i] == k;
                assert(keys.take(n as int)[i] == k);
            }
            if keys.take(n as int).contains(k) && k != keys[last] {
                let i = choose|i: int| 0 <= i < n && keys.take(n as int)[i] == k;
                assert(keys.take(last)[i] == k);
            }
        }
        assert(!keys.take(last).contains(keys[last]));
        assert(values[last] == map[keys[last]]);
        if values[last] == raw {
            assert(listed =~= fewer.insert(keys[last]));
        } else {
            assert(listed =~= fewer);
        }
    }
}

} // verus!
