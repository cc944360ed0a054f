//! The address space: where each record lives.
//!
//! A record is found by a key: a namespace, which says what kind of record
//! it is, and the identities that the record belongs to, in a fixed order.
//! The key turns into a list of seeds, the namespace's tag first and each
//! identity's 32 bytes after it, and the seeds into a ledger address.

use vstd::prelude::*;
use crate::identity::Identity;

verus! {

/// Namespace tag of the deployment's configuration: `push_comm_storage_v3`.
pub const PUSH_COMM_STORAGE: [u8; 20] = [
    112, 117, 115, 104, 95, 99, 111, 109, 109, 95, 115, 116, 111, 114, 97, 103, 101, 95, 118, 51,
];

/// Namespace tag of user accounts: `user_storage`.
pub const USER_STORAGE: [u8; 12] = [117, 115, 101, 114, 95, 115, 116, 111, 114, 97, 103, 101];

/// Namespace tag of memberships: `is_subscribed`.
pub const SUBSCRIPTION: [u8; 13] = [105, 115, 95, 115, 117, 98, 115, 99, 114, 105, 98, 101, 100];

/// Namespace tag of delegate permissions: `delegate`.
pub const DELEGATE: [u8; 8] = [100, 101, 108, 101, 103, 97, 116, 101];

/// Namespace tag of notification preferences: `user_notif_settings`.
pub const USER_NOTIF_SETTINGS: [u8; 19] = [
    117, 115, 101, 114, 95, 110, 111, 116, 105, 102, 95, 115, 101, 116, 116, 105, 110, 103, 115,
];

/// The key of a record: its namespace and the identities it belongs to.
#[derive(Clone, Copy, Debug, Eq, Hash)]
pub enum RecordKey {
    /// The deployment's configuration; there is one.
    CommStorage,
    /// The account of `user`.
    UserStorage { user: Identity },
    /// Whether `user` receives `channel`.
    Subscription { user: Identity, channel: Identity },
    /// Whether `delegate` may send for `channel`.
    Delegate { channel: Identity, delegate: Identity },
    /// The preference of `user` for `channel`.
    UserNotifSettings { user: Identity, channel: Identity },
}

impl PartialEq for RecordKey {
    fn eq(&self, other: &Self) -> (r: bool) {
        match (*self, *other) {
            (RecordKey::CommStorage, RecordKey::CommStorage) => true,
            (RecordKey::UserStorage { user: a }, RecordKey::UserStorage { user: b }) => a == b,
            (
                RecordKey::Subscription { user: a, channel: c },
                RecordKey::Subscription { user: b, channel: d },
            ) => a == b && c == d,
            (
                RecordKey::Delegate { channel: a, delegate: c },
                RecordKey::Delegate { channel: b, delegate: d },
            ) => a == b && c == d,
            (
                RecordKey::UserNotifSettings { user: a, channel: c },
                RecordKey::UserNotifSettings { user: b, channel: d },
            ) => a == b && c == d,
            _ => false,
        }
    }
}

impl vstd::std_specs::cmp::PartialEqSpecImpl for RecordKey {
    open spec fn obeys_eq_spec() -> bool {
        true
    }

    open spec fn eq_spec(&self, other: &Self) -> bool {
        *self == *other
    }
}

/// What `Pubkey::try_find_program_address` of `anchor_lang` returns for a
/// list of seeds and a program: the address and the bump seed it was found
/// with, or `None` where it finds no address.
pub uninterp spec fn program_address(seeds: Seq<Seq<u8>>, program_id: Seq<u8>) -> Option<
    (Seq<u8>, u8),
>;

/// A list of seeds as the list of their bytes.
pub open spec fn seed_bytes(seeds: Seq<Vec<u8>>) -> Seq<Seq<u8>> {
    seeds.map_values(|seed: Vec<u8>| seed@)
}

/// Calls `Pubkey::try_find_program_address` of `anchor_lang`, which hashes
/// the seeds, a bump seed, the program id and a marker, and tries bump seeds
/// from 255 downwards until the hash is not a point of the curve.
///
/// Assumed: the call is a function of its arguments alone, so its result is
/// the one that `program_address` names for these seeds and this program.
/// It does not panic: it answers `None` for seeds it does not accept.
#[verifier::external_body]
fn find_program_address(seeds: &Vec<Vec<u8>>, program_id: &[u8; 32]) -> (r: Option<
    ([u8; 32], u8),
>)
    ensures
        program_address(seed_bytes(seeds@), program_id@) == match r {
            Some((address, bump)) => Some((address@, bump)),
            None => None::<(Seq<u8>, u8)>,
        },
{
    let slices: Vec<&[u8]> = seeds.iter().map(|seed| seed.as_slice()).collect();
    let program = anchor_lang::prelude::Pubkey::new_from_array(*program_id);
    match anchor_lang::prelude::Pubkey::try_find_program_address(&slices, &program) {
        Some((address, bump)) => Some((address.to_bytes(), bump)),
        None => None,
    }
}

impl RecordKey {
    /// The tag of the key's namespace.
    pub open spec fn namespace_tag(self) -> Seq<u8> {
        match self {
            RecordKey::CommStorage => PUSH_COMM_STORAGE@,
            RecordKey::UserStorage { .. } => USER_STORAGE@,
            RecordKey::Subscription { .. } => SUBSCRIPTION@,
            RecordKey::Delegate { .. } => DELEGATE@,
            RecordKey::UserNotifSettings { .. } => USER_NOTIF_SETTINGS@,
        }
    }

    /// The identities of the key, in order.
    pub open spec fn identity_fields(self) -> Seq<Identity> {
        match self {
            RecordKey::CommStorage => seq![],
            RecordKey::UserStorage { user } => seq![user],
            RecordKey::Subscription { user, channel } => seq![user, channel],
            RecordKey::Delegate { channel, delegate } => seq![channel, delegate],
            RecordKey::UserNotifSettings { user, channel } => seq![user, channel],
        }
    }

    /// The seeds of the key: the namespace tag, then the bytes of each
    /// identity.
    pub open spec fn seeds(self) -> Seq<Seq<u8>> {
        seq![self.namespace_tag()] + self.identity_fields().map_values(|id: Identity| id@)
    }

    /// What the address is computed from: the seeds one after the other.
    pub open spec fn preimage(self) -> Seq<u8> {
        self.seeds().flatten()
    }

    /// Builds the namespace tag.
    pub fn namespace_seed(&self) -> (r: Vec<u8>)
        ensures
            r@ == self.namespace_tag(),
    {
        match self {
            RecordKey::CommStorage => array_to_vec(&PUSH_COMM_STORAGE),
            RecordKey::UserStorage { .. } => array_to_vec(&USER_STORAGE),
            RecordKey::Subscription { .. } => array_to_vec(&SUBSCRIPTION),
            RecordKey::Delegate { .. } => array_to_vec(&DELEGATE),
            RecordKey::UserNotifSettings { .. } => array_to_vec(&USER_NOTIF_SETTINGS),
        }
    }

    /// Builds the seeds.
    pub fn seed_list(&self) -> (r: Vec<Vec<u8>>)
        ensures
            seed_bytes(r@) == self.seeds(),
    {
        let mut out: Vec<Vec<u8>> = Vec::new();
        out.push(self.namespace_seed());
        match self {
            RecordKey::CommStorage => {},
            RecordKey::UserStorage { user } => {
                out.push(array_to_vec(&user.bytes));
            },
            RecordKey::Subscription { user, channel } => {
                out.push(array_to_vec(&user.bytes));
                out.push(array_to_vec(&channel.bytes));
            },
            RecordKey::Delegate { channel, delegate } => {
                out.push(array_to_vec(&channel.bytes));
                out.push(array_to_vec(&delegate.bytes));
            },
            RecordKey::UserNotifSettings { user, channel } => {
                out.push(array_to_vec(&user.bytes));
                out.push(array_to_vec(&channel.bytes));
            },
        }
        assert(seed_bytes(out@) =~= self.seeds());
        out
    }
}

fn array_to_vec<const N: usize>(bytes: &[u8; N]) -> (r: Vec<u8>)
    ensures
        r@ == bytes@,
{
    let mut out: Vec<u8> = Vec::new();
    let mut i: usize = 0;
    while i < N
        invariant
            i <= N,
            out@ == bytes@.subrange(0, i as int),
        decreases N - i,
    {
        out.push(bytes[i]);
        assert(out@ =~= bytes@.subrange(0, i + 1));
        i += 1;
    }
    assert(out@ =~= bytes@);
    out
}

/// The address of a key is computed from its tag followed by the bytes of
/// its identities.
pub proof fn lemma_preimage_layout(key: RecordKey)
    ensures
        key.preimage() == match key {
            RecordKey::CommStorage => PUSH_COMM_STORAGE@,
            RecordKey::UserStorage { user } => USER_STORAGE@ + user@,
            RecordKey::Subscription { user, channel } => SUBSCRIPTION@ + user@ + channel@,
            RecordKey::Delegate { channel, delegate } => DELEGATE@ + channel@ + delegate@,
            RecordKey::UserNotifSettings { user, channel } => USER_NOTIF_SETTINGS@ + user@
                + channel@,
        },
{
    reveal_with_fuel(Seq::<_>::flatten, 4);
    let seeds = key.seeds();
    match key {
        RecordKey::CommStorage => {
            assert(seeds =~= seq![PUSH_COMM_STORAGE@]);
            assert(seeds.flatten() =~= PUSH_COMM_STORAGE@);
        },
        RecordKey::UserStorage { user } => {
            assert(seeds =~= seq![USER_STORAGE@, user@]);
            assert(seeds.drop_first() =~= seq![user@]);
            assert(seeds.drop_first().drop_first() =~= Seq::<Seq<u8>>::empty());
            assert(seeds.flatten() =~= USER_STORAGE@ + user@);
        },
        RecordKey::Subscription { user, channel } => {
            assert(seeds =~= seq![SUBSCRIPTION@, user@, channel@]);
            assert(seeds.drop_first() =~= seq![user@, channel@]);
            assert(seeds.drop_first().drop_first() =~= seq![channel@]);
            assert(seeds.drop_first().drop_first().drop_first() =~= Seq::<Seq<u8>>::empty());
            assert(seeds.flatten() =~= SUBSCRIPTION@ + user@ + channel@);
        },
        RecordKey::Delegate { channel, delegate } => {
            assert(seeds =~= seq![DELEGATE@, channel@, delegate@]);
            assert(seeds.drop_first() =~= seq![channel@, delegate@]);
            assert(seeds.drop_first().drop_first() =~= seq![delegate@]);
            assert(seeds.drop_first().drop_first().drop_first() =~= Seq::<Seq<u8>>::empty());
            assert(seeds.flatten() =~= DELEGATE@ + channel@ + delegate@);
        },
        RecordKey::UserNotifSettings { user, channel } => {
            assert(seeds =~= seq![USER_NOTIF_SETTINGS@, user@, channel@]);
            assert(seeds.drop_first() =~= seq![user@, channel@]);
            assert(seeds.drop_first().drop_first() =~= seq![channel@]);
            assert(seeds.drop_first().drop_first().drop_first() =~= Seq::<Seq<u8>>::empty());
            assert(seeds.flatten() =~= USER_NOTIF_SETTINGS@ + user@ + channel@);
        },
    }
}

/// Different keys never share what their address is computed from: two keys
/// with the same preimage are the same key. Whatever collisions remain are
/// those of the hash.
pub proof fn lemma_preimage_injective(a: RecordKey, b: RecordKey)
    requires
        a.preimage() == b.preimage(),
    ensures
        a == b,
{
    lemma_preimage_layout(a);
    lemma_preimage_layout(b);
    let p = a.preimage();
    match (a, b) {
        (RecordKey::UserStorage { user: u1 }, RecordKey::UserStorage { user: u2 }) => {
            assert(u1@ =~= p.subrange(12, 44));
            assert(u2@ =~= p.subrange(12, 44));
            Identity::lemma_view_injective(u1, u2);
        },
        (
            RecordKey::Subscription { user: u1, channel: c1 },
            RecordKey::Subscription { user: u2, channel: c2 },
        ) => {
            assert(u1@ =~= p.subrange(13, 45));
            assert(u2@ =~= p.subrange(13, 45));
            assert(c1@ =~= p.subrange(45, 77));
            assert(c2@ =~= p.subrange(45, 77));
            Identity::lemma_view_injective(u1, u2);
            Identity::lemma_view_injective(c1, c2);
        },
        (
            RecordKey::Delegate { channel: c1, delegate: d1 },
            RecordKey::Delegate { channel: c2, delegate: d2 },
        ) => {
            assert(c1@ =~= p.subrange(8, 40));
            assert(c2@ =~= p.subrange(8, 40));
            assert(d1@ =~= p.subrange(40, 72));
            assert(d2@ =~= p.subrange(40, 72));
            Identity::lemma_view_injective(c1, c2);
            Identity::lemma_view_injective(d1, d2);
        },
        (
            RecordKey::UserNotifSettings { user: u1, channel: c1 },
            RecordKey::UserNotifSettings { user: u2, channel: c2 },
        ) => {
            assert(u1@ =~= p.subrange(19, 51));
            assert(u2@ =~= p.subrange(19, 51));
            assert(c1@ =~= p.subrange(51, 83));
            assert(c2@ =~= p.subrange(51, 83));
            Identity::lemma_view_injective(u1, u2);
            Identity::lemma_view_injective(c1, c2);
        },
        _ => {
            assert(a.preimage().len() == b.preimage().len());
        },
    }
}

/// Derives the ledger address of the record with key `key` under the
/// program `program_id`, together with the bump seed it was found with.
///
/// The same key and program always give the same answer. `None` means that
/// the derivation found no address for them.
pub fn derive(key: &RecordKey, program_id: &Identity) -> (r: Option<(Identity, u8)>)
    ensures
        program_address(key.seeds(), program_id@) == match r {
            Some((address, bump)) => Some((address@, bump)),
            None => None::<(Seq<u8>, u8)>,
        },
{
    let seeds = key.seed_list();
    match find_program_address(&seeds, &program_id.bytes) {
        Some((address, bump)) => Some((Identity::new(address), bump)),
        None => None,
    }
}

} // verus!
