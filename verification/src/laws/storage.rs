//! Promises about what the plugins store.
use fjall::{Database, Keyspace};
use vstd::prelude::*;
use vstd::utf8::encode_utf8;

use crate::paths::FilePath;
use crate::wasm::host::HostContext;
use crate::wasm::kv::{
    composite, composite_key, database_opened, keyspace_opened, kv_path, law_composite_injective,
    KvError, KvStore, Opening,
};

verus! {

/// How many bytes the key of a plugin takes up in the store.
pub open spec fn key_size(scope: Seq<char>, key: Seq<char>) -> nat {
    encode_utf8(scope).len() + encode_utf8(key).len() + 1
}

/// A key is stored under the bytes of its scope, a zero byte and its own bytes.
pub proof fn law_layout_of_a_key(scope: &str, key: &str, r: Vec<u8>)
    requires
        call_ensures(composite_key, (scope, key), r),
    ensures
        r@.len() == key_size(scope@, key@),
        r@.take(encode_utf8(scope@).len() as int) == encode_utf8(scope@),
        r@[encode_utf8(scope@).len() as int] == 0,
        r@.skip(encode_utf8(scope@).len() as int + 1) == encode_utf8(key@),
        r@ == composite(scope@, key@),
{
    assert(r@.take(encode_utf8(scope@).len() as int) =~= encode_utf8(scope@));
    assert(r@.skip(encode_utf8(scope@).len() as int + 1) =~= encode_utf8(key@));
}

/// What was stored is read back, byte for byte.
pub proof fn law_stored_value_is_read_back(
    kv: &mut KvStore,
    scope: String,
    key: String,
    value: Vec<u8>,
    after: &KvStore,
    same_scope: &str,
    same_key: &str,
    written: Result<(), KvError>,
    read: Result<Option<Vec<u8>>, KvError>,
)
    requires
        call_ensures(KvStore::set, (kv, scope, key, value), written),
        written is Ok,
        *after == *final(kv),
        same_scope@ == scope@,
        same_key@ == key@,
        call_ensures(KvStore::get, (after, same_scope, same_key), read),
    ensures
        match read {
            Ok(Some(v)) => v@ == value@,
            Ok(None) => false,
            Err(e) => e is Storage,
        },
{
}

/// What is stored for one scope and key changes nothing for another, where no
/// scope holds a zero character; and a write that fails changes nothing at all.
pub proof fn law_other_values_are_kept(
    kv: &mut KvStore,
    scope: String,
    key: String,
    value: Vec<u8>,
    before: &KvStore,
    after: &KvStore,
    other_scope: &str,
    other_key: &str,
    written: Result<(), KvError>,
    earlier: Result<Option<Vec<u8>>, KvError>,
    later: Result<Option<Vec<u8>>, KvError>,
)
    requires
        call_ensures(KvStore::set, (kv, scope, key, value), written),
        *before == *old(kv),
        *after == *final(kv),
        call_ensures(KvStore::get, (before, other_scope, other_key), earlier),
        call_ensures(KvStore::get, (after, other_scope, other_key), later),
        written is Ok ==> {
            &&& !scope@.contains('\0')
            &&& !other_scope@.contains('\0')
            &&& other_scope@ != scope@ || other_key@ != key@
        },
        earlier is Ok,
        later is Ok,
    ensures
        match earlier->Ok_0 {
            Some(v) => later matches Ok(Some(w)) && w@ == v@,
            None => later matches Ok(None),
        },
{
    if composite(scope@, key@) == composite(other_scope@, other_key@) && written is Ok {
        law_composite_injective(scope@, key@, other_scope@, other_key@);
    }
}

/// A key is refused for its size exactly from 65536 bytes on, a value exactly from
/// 4294967296 bytes on; the key comes first.
pub proof fn law_sizes_that_are_refused(
    kv: &mut KvStore,
    scope: String,
    key: String,
    value: Vec<u8>,
    written: Result<(), KvError>,
)
    requires
        call_ensures(KvStore::set, (kv, scope, key, value), written),
    ensures
        key_size(scope@, key@) > 65_535 <==> written matches Err(KvError::KeyTooLong),
        key_size(scope@, key@) <= 65_535 && value@.len() > 4_294_967_295 <==> written matches Err(
            KvError::ValueTooLong,
        ),
        written matches Err(e) ==> e is KeyTooLong || e is ValueTooLong || e is Storage,
        written is Err ==> final(kv)@ == old(kv)@,
        final(kv).saved() == old(kv).saved(),
        final(kv).database() == old(kv).database(),
        final(kv).wf() == old(kv).wf(),
{
}

/// A key that is too long to be stored is not read either.
pub proof fn law_long_keys_are_not_read(
    kv: &KvStore,
    scope: &str,
    key: &str,
    read: Result<Option<Vec<u8>>, KvError>,
)
    requires
        call_ensures(KvStore::get, (kv, scope, key), read),
    ensures
        key_size(scope@, key@) > 65_535 <==> read matches Err(KvError::KeyTooLong),
        read matches Err(e) ==> e is KeyTooLong || e is Storage,
{
}

/// A plugin that may use the store uses it as it is; one that may not finds it
/// empty and leaves it as it is.
pub proof fn law_store_of_a_plugin(
    host: &HostContext,
    kv: &mut KvStore,
    plain: &mut KvStore,
    scope: String,
    key: String,
    value: Vec<u8>,
    written: Result<(), KvError>,
    plainly: Result<(), KvError>,
)
    requires
        call_ensures(HostContext::kv_set, (host, kv, scope, key, value), written),
        call_ensures(KvStore::set, (plain, scope, key, value), plainly),
        old(plain)@ == old(kv)@,
    ensures
        !host.config().permissions.kv ==> written is Ok && final(kv)@ == old(kv)@,
        host.config().permissions.kv ==> {
            &&& (written matches Err(KvError::KeyTooLong)) == (plainly matches Err(
                KvError::KeyTooLong,
            ))
            &&& (written matches Err(KvError::ValueTooLong)) == (plainly matches Err(
                KvError::ValueTooLong,
            ))
            &&& written is Ok && plainly is Ok ==> final(kv)@ == final(plain)@
            &&& written is Err ==> final(kv)@ == old(kv)@
        },
        final(kv).saved() == old(kv).saved(),
        final(kv).database() == old(kv).database(),
        final(kv).wf() == old(kv).wf(),
{
}

/// A plugin that may use the store reads what is in it; one that may not reads
/// nothing.
pub proof fn law_reading_of_a_plugin(
    host: &HostContext,
    kv: &KvStore,
    scope: String,
    key: String,
    same_scope: &str,
    same_key: &str,
    read: Result<Option<Vec<u8>>, KvError>,
    plainly: Result<Option<Vec<u8>>, KvError>,
)
    requires
        call_ensures(HostContext::kv_get, (host, kv, scope, key), read),
        call_ensures(KvStore::get, (kv, same_scope, same_key), plainly),
        same_scope@ == scope@,
        same_key@ == key@,
    ensures
        !host.config().permissions.kv ==> read matches Ok(None),
        host.config().permissions.kv ==> {
            &&& (read matches Err(KvError::KeyTooLong)) == (plainly matches Err(
                KvError::KeyTooLong,
            ))
            &&& read is Ok && plainly is Ok ==> match read->Ok_0 {
                Some(v) => plainly matches Ok(Some(w)) && w@ == v@,
                None => plainly matches Ok(None),
            }
        },
{
}

/// What is saved is all that is stored, and saving changes none of it.
pub proof fn law_saving_keeps_everything(kv: &mut KvStore, r: Result<(), KvError>)
    requires
        call_ensures(KvStore::save, (kv,), r),
        old(kv).wf(),
    ensures
        final(kv)@ == old(kv)@,
        final(kv).wf(),
        final(kv).database() == old(kv).database(),
        r is Ok ==> final(kv).saved() == old(kv)@,
        r is Err ==> final(kv).saved() == old(kv).saved(),
        r matches Err(e) ==> e is Storage,
{
}

/// A store is kept in the database that was opened for it; what kept it from being
/// opened is told.
pub proof fn law_store_is_opened(
    opening: Opening,
    r: Result<KvStore, KvError>,
    database: Result<Database, KvError>,
)
    requires
        call_ensures(KvStore::with_path, (opening,), r),
        call_ensures(database_opened, (opening,), database),
    ensures
        match opening {
            Opening::NoDirectory(reason) => (r matches Err(KvError::Directory(e)) && e == reason)
                && (database matches Err(KvError::Directory(e)) && e == reason),
            Opening::Failed(reason) => (r matches Err(KvError::Open(e)) && e == reason) && (
            database matches Err(KvError::Open(e)) && e == reason),
            Opening::Opened(d) => {
                &&& database matches Ok(opened) && opened == d
                &&& match r {
                    Ok(store) => store.wf() && store.database() == d,
                    Err(e) => e is Keyspace,
                }
            },
        },
{
}

/// A store is kept in the database that it was given.
pub proof fn law_store_in_a_database(database: Database, r: Result<KvStore, KvError>)
    requires
        call_ensures(KvStore::new, (database,), r),
    ensures
        match r {
            Ok(store) => store.wf() && store.database() == database,
            Err(e) => e is Keyspace,
        },
{
}

/// A keyspace that was opened is used as it is, and one that was not is told.
pub proof fn law_keyspace_is_opened(
    result: Result<Keyspace, fjall::Error>,
    r: Result<Keyspace, KvError>,
)
    requires
        call_ensures(keyspace_opened, (result,), r),
    ensures
        match result {
            Ok(keyspace) => r matches Ok(k) && k == keyspace,
            Err(reason) => r matches Err(KvError::Keyspace(e)) && e == reason,
        },
{
}

/// The store lies in the data directory, under a name of its own.
pub proof fn law_place_of_the_store(dir: String, named: FilePath, unnamed: FilePath)
    requires
        call_ensures(kv_path, (Some(dir),), named),
        call_ensures(kv_path, (None,), unnamed),
    ensures
        named@ == seq![dir@, "plugin-kv"@],
        unnamed@ == seq!["./data"@, "plugin-kv"@],
{
}

} // verus!
