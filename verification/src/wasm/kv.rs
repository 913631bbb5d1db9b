//! The key-value store that the plugins share.
use fjall::{Database, Keyspace};
use vstd::prelude::*;
use vstd::utf8::encode_utf8;

use crate::paths::FilePath;

verus! {

#[verifier::external_type_specification]
#[verifier::external_body]
pub struct ExDatabase(Database);

#[verifier::external_type_specification]
#[verifier::external_body]
pub struct ExKeyspace(Keyspace);

#[verifier::external_type_specification]
#[verifier::external_body]
pub struct ExFjallError(fjall::Error);

/// The keyspace that holds what the plugins store.
pub const KEYSPACE: &'static str = "plugin_kv";

/// The longest key that the database takes, in bytes.
pub const MAX_KEY_LEN: usize = 65_535;

/// The longest value that the database takes, in bytes.
pub const MAX_VALUE_LEN: u64 = 4_294_967_295;

/// Why the store did not do what it was asked.
#[derive(Debug)]
pub enum KvError {
    /// The directory could not be made, for the reason given.
    Directory(String),
    /// The database could not be opened.
    Open(fjall::Error),
    /// The keyspace could not be created.
    Keyspace(fjall::Error),
    /// The scope and the key are too long together.
    KeyTooLong,
    ValueTooLong,
    /// The database failed.
    Storage(fjall::Error),
}

/// What opening the database of a store came to.
pub enum Opening {
    /// The directory could not be made, for the reason given.
    NoDirectory(String),
    /// The database could not be opened.
    Failed(fjall::Error),
    /// The database is open, and this is the only handle to it.
    Opened(Database),
}

/// What a keyspace holds. The handle of a store is the only one to its keyspace:
/// the database is locked while it is open, the store takes over the only handle
/// to the database, and it gives no handle away.
pub uninterp spec fn contents(keyspace: Keyspace) -> Map<Seq<u8>, Seq<u8>>;

/// What a keyspace held when `Database::persist` last synced its database with
/// success. What is left of it after a crash is for the disk to say.
pub uninterp spec fn synced(keyspace: Keyspace) -> Map<Seq<u8>, Seq<u8>>;

/// The database that a keyspace is part of.
pub uninterp spec fn part_of(keyspace: Keyspace) -> Database;

/// The name of a keyspace.
pub uninterp spec fn keyspace_name(keyspace: Keyspace) -> Seq<char>;

/// Calls `Database::keyspace` with default options: a handle to the keyspace of
/// that name in that database, which is created where there is none. What it
/// holds, and whether the call succeeds, depends on the disk.
#[verifier::external_body]
fn open_keyspace(database: &Database, name: &str) -> (r: Result<Keyspace, fjall::Error>)
    requires
        0 < encode_utf8(name@).len() <= 255,
    ensures
        match r {
            Ok(k) => part_of(k) == *database && keyspace_name(k) == name@,
            Err(_) => true,
        },
{
    database.keyspace(name, fjall::KeyspaceCreateOptions::default)
}

/// Calls `Keyspace::get`: the value stored under the key, if there is one.
#[verifier::external_body]
fn keyspace_get(keyspace: &Keyspace, key: &Vec<u8>) -> (r: Result<Option<Vec<u8>>, fjall::Error>)
    requires
        0 < key@.len() <= MAX_KEY_LEN,
    ensures
        match r {
            Ok(Some(v)) => contents(*keyspace).contains_key(key@) && contents(*keyspace)[key@] == v@,
            Ok(None) => !contents(*keyspace).contains_key(key@),
            Err(_) => true,
        },
{
    Ok(keyspace.get(key)?.map(|v| v.to_vec()))
}

/// Calls `Keyspace::insert`: afterwards the key maps to the value, whatever it
/// mapped to before, and the other keys map to what they did. A call that fails
/// stores nothing. Neither counts as a call of `Database::persist`.
#[verifier::external_body]
fn keyspace_insert(keyspace: &mut Keyspace, key: Vec<u8>, value: Vec<u8>) -> (r: Result<
    (),
    fjall::Error,
>)
    requires
        0 < key@.len() <= MAX_KEY_LEN,
        value@.len() <= MAX_VALUE_LEN,
    ensures
        r is Ok ==> contents(*final(keyspace)) == contents(*old(keyspace)).insert(key@, value@),
        r is Err ==> contents(*final(keyspace)) == contents(*old(keyspace)),
        synced(*final(keyspace)) == synced(*old(keyspace)),
        part_of(*final(keyspace)) == part_of(*old(keyspace)),
        keyspace_name(*final(keyspace)) == keyspace_name(*old(keyspace)),
{
    keyspace.insert(key, value)
}

/// Calls `Database::persist` with the mode that syncs data and file metadata: a
/// call that succeeds syncs what the keyspaces of the database hold, `keyspace`
/// among them where it is one. No call changes what they hold. Whether it
/// succeeds, and what durability that gives, depends on the disk.
#[verifier::external_body]
fn sync_all(database: &Database, keyspace: &mut Keyspace) -> (r: Result<(), fjall::Error>)
    ensures
        part_of(*old(keyspace)) == *database && r is Ok ==> synced(*final(keyspace)) == contents(
            *old(keyspace),
        ),
        r is Err ==> synced(*final(keyspace)) == synced(*old(keyspace)),
        contents(*final(keyspace)) == contents(*old(keyspace)),
        part_of(*final(keyspace)) == part_of(*old(keyspace)),
        keyspace_name(*final(keyspace)) == keyspace_name(*old(keyspace)),
{
    database.persist(fjall::PersistMode::SyncAll)
}

/// The bytes under which a plugin's key is stored: the scope, a zero byte, the
/// key.
pub open spec fn composite(scope: Seq<char>, key: Seq<char>) -> Seq<u8> {
    encode_utf8(scope).push(0u8) + encode_utf8(key)
}

/// What a store holds for a key in a scope.
pub open spec fn lookup(m: Map<Seq<u8>, Seq<u8>>, scope: Seq<char>, key: Seq<char>) -> Option<
    Seq<u8>,
> {
    if m.contains_key(composite(scope, key)) {
        Some(m[composite(scope, key)])
    } else {
        None
    }
}

/// What a store holds after a write.
pub open spec fn stored(
    m: Map<Seq<u8>, Seq<u8>>,
    scope: Seq<char>,
    key: Seq<char>,
    value: Seq<u8>,
) -> Map<Seq<u8>, Seq<u8>> {
    m.insert(composite(scope, key), value)
}

fn push_bytes(buffer: &mut Vec<u8>, s: &str)
    ensures
        final(buffer)@ == old(buffer)@ + encode_utf8(s@),
{
    buffer.extend_from_slice(s.as_bytes());
    assert(buffer@ == old(buffer)@ + encode_utf8(s@));
}

/// The bytes under which a plugin's key is stored.
pub fn composite_key(scope: &str, key: &str) -> (r: Vec<u8>)
    ensures
        r@ == composite(scope@, key@),
{
    let mut buffer: Vec<u8> = Vec::new();
    push_bytes(&mut buffer, scope);
    buffer.push(0);
    push_bytes(&mut buffer, key);
    assert(buffer@ == composite(scope@, key@));
    buffer
}

/// Where the store lies: in the data directory, which is `./data` unless the
/// environment names another.
pub open spec fn kv_path_of(data_dir: Option<String>) -> Seq<Seq<char>> {
    seq![
        match data_dir {
            Some(d) => d@,
            None => "./data"@,
        },
        "plugin-kv"@,
    ]
}

/// Where the store lies, from the variable that names the data directory.
pub fn kv_path(data_dir: Option<String>) -> (r: FilePath)
    ensures
        r@ == kv_path_of(data_dir),
{
    let base = match data_dir {
        Some(d) => d,
        None => "./data".to_owned(),
    };
    let r = FilePath::new(base).join("plugin-kv");
    assert(r@ == seq![base@, "plugin-kv"@]);
    r
}

/// A store of bytes under keys, each in a scope.
pub struct KvStore {
    database: Database,
    keyspace: Keyspace,
}

impl View for KvStore {
    type V = Map<Seq<u8>, Seq<u8>>;

    closed spec fn view(&self) -> Map<Seq<u8>, Seq<u8>> {
        contents(self.keyspace)
    }
}

/// The database of a store, from what opening it came to.
pub fn database_opened(opening: Opening) -> (r: Result<Database, KvError>)
    ensures
        r == match opening {
            Opening::NoDirectory(reason) => Err::<Database, KvError>(KvError::Directory(reason)),
            Opening::Failed(e) => Err(KvError::Open(e)),
            Opening::Opened(d) => Ok(d),
        },
{
    match opening {
        Opening::NoDirectory(reason) => Err(KvError::Directory(reason)),
        Opening::Failed(e) => Err(KvError::Open(e)),
        Opening::Opened(d) => Ok(d),
    }
}

/// The keyspace of a store, from what opening it came to.
pub fn keyspace_opened(result: Result<Keyspace, fjall::Error>) -> (r: Result<Keyspace, KvError>)
    ensures
        r == match result {
            Ok(k) => Ok::<Keyspace, KvError>(k),
            Err(e) => Err(KvError::Keyspace(e)),
        },
{
    match result {
        Ok(k) => Ok(k),
        Err(e) => Err(KvError::Keyspace(e)),
    }
}

impl KvStore {
    /// The keyspace is the one for plugins, and part of the database.
    pub closed spec fn wf(&self) -> bool {
        part_of(self.keyspace) == self.database && keyspace_name(self.keyspace) == KEYSPACE@
    }

    /// The database that the store is kept in.
    pub closed spec fn database(&self) -> Database {
        self.database
    }

    /// What the store held when it was last saved.
    pub closed spec fn saved(&self) -> Map<Seq<u8>, Seq<u8>> {
        synced(self.keyspace)
    }

    /// The store in a database, which it takes over: there is no other handle to it.
    pub fn new(database: Database) -> (r: Result<KvStore, KvError>)
        ensures
            match r {
                Ok(s) => s.wf() && s.database() == database,
                Err(e) => e is Keyspace,
            },
    {
        proof {
            reveal_strlit("plugin_kv");
            vstd::utf8::is_ascii_chars_encode_utf8(KEYSPACE@);
        }
        let keyspace = match keyspace_opened(open_keyspace(&database, KEYSPACE)) {
            Ok(k) => k,
            Err(e) => return Err(e),
        };
        Ok(KvStore { database, keyspace })
    }

    /// The store at a path, from what opening the database there came to.
    pub fn with_path(opening: Opening) -> (r: Result<KvStore, KvError>)
        ensures
            match opening {
                Opening::NoDirectory(reason) => r == Err::<KvStore, KvError>(
                    KvError::Directory(reason),
                ),
                Opening::Failed(e) => r == Err::<KvStore, KvError>(KvError::Open(e)),
                Opening::Opened(d) => match r {
                    Ok(s) => s.wf() && s.database() == d,
                    Err(e) => e is Keyspace,
                },
            },
    {
        match database_opened(opening) {
            Ok(d) => Self::new(d),
            Err(e) => Err(e),
        }
    }

    /// What is stored for a key in a scope.
    pub fn get(&self, scope: &str, key: &str) -> (r: Result<Option<Vec<u8>>, KvError>)
        ensures
            match r {
                Ok(Some(v)) => lookup(self@, scope@, key@) == Some(v@),
                Ok(None) => lookup(self@, scope@, key@) is None,
                Err(KvError::KeyTooLong) => composite(scope@, key@).len() > MAX_KEY_LEN,
                Err(e) => e is Storage && composite(scope@, key@).len() <= MAX_KEY_LEN,
            },
            composite(scope@, key@).len() > MAX_KEY_LEN ==> r is Err,
    {
        let composite = composite_key(scope, key);
        if composite.len() > MAX_KEY_LEN {
            return Err(KvError::KeyTooLong);
        }
        match keyspace_get(&self.keyspace, &composite) {
            Ok(v) => Ok(v),
            Err(e) => Err(KvError::Storage(e)),
        }
    }

    /// Stores a value for a key in a scope.
    pub fn set(&mut self, scope: String, key: String, value: Vec<u8>) -> (r: Result<(), KvError>)
        ensures
            r is Ok ==> final(self)@ == stored(old(self)@, scope@, key@, value@),
            r is Err ==> final(self)@ == old(self)@,
            composite(scope@, key@).len() > MAX_KEY_LEN <==> r matches Err(KvError::KeyTooLong),
            (composite(scope@, key@).len() <= MAX_KEY_LEN && value@.len() > MAX_VALUE_LEN) <==> r
                matches Err(KvError::ValueTooLong),
            r matches Err(e) ==> e is KeyTooLong || e is ValueTooLong || e is Storage,
            final(self).wf() == old(self).wf(),
            final(self).database() == old(self).database(),
            final(self).saved() == old(self).saved(),
    {
        let composite = composite_key(scope.as_str(), key.as_str());
        if composite.len() > MAX_KEY_LEN {
            return Err(KvError::KeyTooLong);
        }
        if value.len() as u64 > MAX_VALUE_LEN {
            return Err(KvError::ValueTooLong);
        }
        match keyspace_insert(&mut self.keyspace, composite, value) {
            Ok(()) => Ok(()),
            Err(e) => Err(KvError::Storage(e)),
        }
    }

    /// Syncs what is stored to the disk, data and file metadata alike.
    pub fn save(&mut self) -> (r: Result<(), KvError>)
        ensures
            match r {
                Ok(_) => old(self).wf() ==> final(self).saved() == old(self)@,
                Err(e) => e is Storage && final(self).saved() == old(self).saved(),
            },
            final(self)@ == old(self)@,
            final(self).wf() == old(self).wf(),
            final(self).database() == old(self).database(),
    {
        match sync_all(&self.database, &mut self.keyspace) {
            Ok(()) => Ok(()),
            Err(e) => Err(KvError::Storage(e)),
        }
    }
}

proof fn lemma_scalar_bytes_nonzero(character: char)
    requires
        character != '\0',
    ensures
        !vstd::utf8::encode_scalar(character as u32).contains(0u8),
{
    let c = character as u32;
    vstd::utf8::char_is_scalar(character);
    let s = vstd::utf8::encode_scalar(c);
    assert(0 < c <= 0x7f ==> (c & 0x7F) as u8 != 0u8) by (bit_vector);
    assert(0xC0 | ((c >> 6) & 0x1F) as u8 != 0u8) by (bit_vector);
    assert(0xE0 | ((c >> 12) & 0x0F) as u8 != 0u8) by (bit_vector);
    assert(0xF0 | ((c >> 18) & 0x7) as u8 != 0u8) by (bit_vector);
    assert(0x80 | (c & 0x3F) as u8 != 0u8) by (bit_vector);
    assert(0x80 | ((c >> 6) & 0x3F) as u8 != 0u8) by (bit_vector);
    assert(0x80 | ((c >> 12) & 0x3F) as u8 != 0u8) by (bit_vector);
    assert forall|i: int| 0 <= i < s.len() implies s[i] != 0u8 by {}
}

proof fn lemma_bytes_nonzero(s: Seq<char>)
    requires
        !s.contains('\0'),
    ensures
        !encode_utf8(s).contains(0u8),
    decreases s.len(),
{
    if s.len() > 0 {
        let first = vstd::utf8::encode_scalar(s[0] as u32);
        let rest = encode_utf8(s.drop_first());
        assert(s[0] != '\0');
        lemma_scalar_bytes_nonzero(s[0]);
        assert forall|i: int| 0 <= i < s.drop_first().len() implies s.drop_first()[i] != '\0' by {
            assert(s.contains(s[i + 1]));
        }
        lemma_bytes_nonzero(s.drop_first());
        assert forall|i: int| 0 <= i < encode_utf8(s).len() implies encode_utf8(s)[i] != 0u8 by {
            if i < first.len() {
                assert(first.contains(first[i]));
            } else {
                assert(rest.contains(rest[i - first.len()]));
            }
        }
    }
}

/// Keys do not collide: where no scope holds a zero character, two pairs of a
/// scope and a key are stored under the same bytes only if they are the same.
pub proof fn law_composite_injective(
    scope1: Seq<char>,
    key1: Seq<char>,
    scope2: Seq<char>,
    key2: Seq<char>,
)
    requires
        !scope1.contains('\0'),
        !scope2.contains('\0'),
        composite(scope1, key1) == composite(scope2, key2),
    ensures
        scope1 == scope2,
        key1 == key2,
{
    let a1 = encode_utf8(scope1);
    let b1 = encode_utf8(key1);
    let a2 = encode_utf8(scope2);
    let b2 = encode_utf8(key2);
    let c1 = composite(scope1, key1);
    let c2 = composite(scope2, key2);
    lemma_bytes_nonzero(scope1);
    lemma_bytes_nonzero(scope2);
    assert(c1[a1.len() as int] == 0u8);
    assert(c2[a2.len() as int] == 0u8);
    if a1.len() < a2.len() {
        assert(c2[a1.len() as int] == a2[a1.len() as int]);
        assert(a2.contains(a2[a1.len() as int]));
    }
    if a2.len() < a1.len() {
        assert(c1[a2.len() as int] == a1[a2.len() as int]);
        assert(a1.contains(a1[a2.len() as int]));
    }
    assert(a1 == c1.take(a1.len() as int));
    assert(a2 == c2.take(a2.len() as int));
    assert(b1 == c1.skip(a1.len() as int + 1));
    assert(b2 == c2.skip(a2.len() as int + 1));
    vstd::utf8::encode_utf8_decode_utf8(scope1);
    vstd::utf8::encode_utf8_decode_utf8(scope2);
    vstd::utf8::encode_utf8_decode_utf8(key1);
    vstd::utf8::encode_utf8_decode_utf8(key2);
}

/// A read gives back what the last write to its scope and key stored.
pub proof fn law_read_after_write(
    m: Map<Seq<u8>, Seq<u8>>,
    scope: Seq<char>,
    key: Seq<char>,
    value: Seq<u8>,
)
    ensures
        lookup(stored(m, scope, key, value), scope, key) == Some(value),
{
}

/// A write changes nothing for other scopes and other keys, where no scope holds
/// a zero character.
pub proof fn law_write_leaves_others(
    m: Map<Seq<u8>, Seq<u8>>,
    scope: Seq<char>,
    key: Seq<char>,
    value: Seq<u8>,
    other_scope: Seq<char>,
    other_key: Seq<char>,
)
    requires
        !scope.contains('\0'),
        !other_scope.contains('\0'),
        other_scope != scope || other_key != key,
    ensures
        lookup(stored(m, scope, key, value), other_scope, other_key) == lookup(
            m,
            other_scope,
            other_key,
        ),
{
    if composite(scope, key) == composite(other_scope, other_key) {
        law_composite_injective(scope, key, other_scope, other_key);
    }
}

/// Of two writes to one scope and key the later one counts.
pub proof fn law_last_write_wins(
    m: Map<Seq<u8>, Seq<u8>>,
    scope: Seq<char>,
    key: Seq<char>,
    first: Seq<u8>,
    second: Seq<u8>,
)
    ensures
        stored(stored(m, scope, key, first), scope, key, second) == stored(m, scope, key, second),
{
    assert(stored(stored(m, scope, key, first), scope, key, second) =~= stored(
        m,
        scope,
        key,
        second,
    ));
}

} // verus!
