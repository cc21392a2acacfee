//! The network of validators, as it is configured on a node.

use vstd::prelude::*;

use crate::types::NodeId;
use ethereum_types::H512;
use hbbft::crypto::poly::Poly;
use hbbft::crypto::serde_impl::SerdeSecret;
use hbbft::crypto::{PublicKey, PublicKeySet, SecretKey, SecretKeyShare};
use hbbft::NetworkInfo;
use std::collections::BTreeMap;

verus! {

#[verifier::external_type_specification]
#[verifier::external_body]
pub struct ExSecretKeyShare(hbbft::crypto::SecretKeyShare);

#[verifier::external_type_specification]
#[verifier::external_body]
pub struct ExPublicKeySet(hbbft::crypto::PublicKeySet);

/// The configuration of a validator node. Every field holds JSON text.
#[derive(Clone, Debug, PartialEq, Eq)]
pub struct HbbftOptions {
    /// The id of this node.
    pub hbbft_our_id: String,
    /// The share of the secret key that this node holds.
    pub hbbft_secret_share: String,
    /// The public keys that belong to the shares of all nodes.
    pub hbbft_public_key_set: String,
    /// The addresses of the validators, by their ids.
    pub hbbft_validator_ip_addresses: String,
}

/// The secret key share that `serde_json::from_str` reads, if the text is one.
pub uninterp spec fn secret_share_from(json: Seq<char>) -> Option<SecretKeyShare>;

/// The public key set that `serde_json::from_str` reads, if the text is one.
pub uninterp spec fn key_set_from(json: Seq<char>) -> Option<PublicKeySet>;

/// The keys, in ascending order, of the map from ids to texts that `serde_json::from_str` reads,
/// if the text is one.
pub uninterp spec fn validator_ids_from(json: Seq<char>) -> Option<Seq<NodeId>>;

/// The public key that `PublicKeySet::public_key` returns.
pub uninterp spec fn master_key(keys: PublicKeySet) -> PublicKey;

/// Whether a key set equals the one that is made from the commitment to `Poly::zero`, which holds
/// no key.
pub uninterp spec fn key_set_empty(keys: PublicKeySet) -> bool;

/// The key set that `NetworkInfo::public_key_set` returns.
pub uninterp spec fn network_keys(netinfo: NetworkInfo<H512>) -> PublicKeySet;

/// Whether a network has keys.
pub open spec fn has_keys(netinfo: NetworkInfo<H512>) -> bool {
    !key_set_empty(network_keys(netinfo))
}

/// The network information that `NetworkInfo::new` makes of its arguments.
pub uninterp spec fn network_of(
    our_id: NodeId,
    share: SecretKeyShare,
    keys: PublicKeySet,
    ids: Seq<NodeId>,
) -> NetworkInfo<H512>;

/// The id that `NetworkInfo::our_id` returns.
pub uninterp spec fn network_our_id(netinfo: NetworkInfo<H512>) -> NodeId;

/// The ids that `NetworkInfo::all_ids` goes through, in its order.
pub uninterp spec fn network_ids(netinfo: NetworkInfo<H512>) -> Seq<NodeId>;

/// Whether the node is one of the validators of its network.
pub open spec fn is_validator(netinfo: NetworkInfo<H512>) -> bool {
    network_ids(netinfo).contains(network_our_id(netinfo))
}

/// The number that `NetworkInfo::num_faulty` returns.
pub uninterp spec fn network_faulty(netinfo: NetworkInfo<H512>) -> nat;

/// Calls `serde_json::from_str` for a secret key share in its serialisable wrapper: the outcome
/// depends on the text alone.
#[verifier::external_body]
fn parse_secret_share(json: &str) -> (share: Option<SecretKeyShare>)
    ensures
        share == secret_share_from(json@),
{
    serde_json::from_str::<SerdeSecret<SecretKeyShare>>(json).ok().map(|secret| secret.into_inner())
}

/// Calls `serde_json::from_str` for a public key set: the outcome depends on the text alone.
#[verifier::external_body]
fn parse_key_set(json: &str) -> (keys: Option<PublicKeySet>)
    ensures
        keys == key_set_from(json@),
{
    serde_json::from_str(json).ok()
}

/// Calls `serde_json::from_str` for a map from ids to texts and hands out the ids: the outcome
/// depends on the text alone, and no id comes twice.
#[verifier::external_body]
fn parse_validator_ids(json: &str) -> (ids: Option<Vec<NodeId>>)
    ensures
        (match ids {
            Some(list) => Some(list@),
            None => None,
        }) == validator_ids_from(json@),
        ids matches Some(list) ==> list@.no_duplicates(),
{
    let map: BTreeMap<H512, String> = serde_json::from_str(json).ok()?;
    Some(map.keys().map(|id| id.0).collect())
}

/// Compares a `hbbft::crypto::PublicKeySet` by its `==` with that of the commitment to
/// `hbbft::crypto::poly::Poly::zero`, which is the one without keys.
#[verifier::external_body]
fn is_key_set_empty(keys: &PublicKeySet) -> (empty: bool)
    ensures
        empty == key_set_empty(*keys),
{
    *keys == PublicKeySet::from(Poly::zero().commitment())
}

/// Calls `hbbft::NetworkInfo::public_key_set`, and copies the key set.
#[verifier::external_body]
fn public_key_set(netinfo: &NetworkInfo<H512>) -> (keys: PublicKeySet)
    ensures
        keys == network_keys(*netinfo),
{
    netinfo.public_key_set().clone()
}

/// Calls `hbbft::crypto::PublicKeySet::public_key`, which panics without keys: the key depends on
/// the set alone.
#[verifier::external_body]
fn key_set_master_key(keys: &PublicKeySet) -> (key: PublicKey)
    requires
        !key_set_empty(*keys),
    ensures
        key == master_key(*keys),
{
    keys.public_key()
}

/// Calls `hbbft::NetworkInfo::new`, which panics without nodes: the information depends on the
/// arguments alone, its nodes and keys are the given ones, and less than a third of the nodes may
/// be faulty. `NetworkInfo` also keeps keys that sign for single nodes. Neither the consensus nor
/// the threshold signing reads them, and the default secret key and its public key stand in.
#[verifier::external_body]
fn make_network_info(
    our_id: NodeId,
    share: SecretKeyShare,
    keys: PublicKeySet,
    ids: &Vec<NodeId>,
) -> (netinfo: NetworkInfo<H512>)
    requires
        ids@.len() > 0,
        ids@.no_duplicates(),
    ensures
        netinfo == network_of(our_id, share, keys, ids@),
        network_our_id(netinfo) == our_id,
        network_keys(netinfo) == keys,
        network_ids(netinfo).to_multiset() == ids@.to_multiset(),
        network_faulty(netinfo) == (ids@.len() - 1) / 3,
{
    let key = SecretKey::default().public_key();
    let public_keys = ids.iter().map(|id| (H512(*id), key)).collect();
    NetworkInfo::new(H512(our_id), share, keys, SecretKey::default(), public_keys)
}

/// Calls `hbbft::NetworkInfo::our_id`.
#[verifier::external_body]
pub(crate) fn our_id(netinfo: &NetworkInfo<H512>) -> (id: NodeId)
    ensures
        id == network_our_id(*netinfo),
{
    netinfo.our_id().0
}

/// Calls `hbbft::NetworkInfo::all_ids`, which goes through the keys of a map, so that no id comes
/// twice.
#[verifier::external_body]
pub(crate) fn all_ids(netinfo: &NetworkInfo<H512>) -> (ids: Vec<NodeId>)
    ensures
        ids@ == network_ids(*netinfo),
        ids@.no_duplicates(),
{
    netinfo.all_ids().map(|id| id.0).collect()
}

/// Calls `hbbft::NetworkInfo::num_faulty`.
#[verifier::external_body]
pub(crate) fn num_faulty(netinfo: &NetworkInfo<H512>) -> (number: usize)
    ensures
        number == network_faulty(*netinfo),
{
    netinfo.num_faulty()
}

/// Calls the `clone` that `hbbft::NetworkInfo` derives, which copies every part.
#[verifier::external_body]
pub(crate) fn clone_network_info(netinfo: &NetworkInfo<H512>) -> (copy: NetworkInfo<H512>)
    ensures
        copy == *netinfo,
{
    netinfo.clone()
}

/// What comes out of reading the network information from the configuration.
pub enum NetworkSetup {
    /// The node is a validator of this network.
    Ready(NetworkInfo<H512>),
    /// Some part of the configuration cannot be read.
    Incomplete,
    /// The configuration can be read, but it names no validators.
    NoValidators,
    /// The configuration can be read and names validators, but its key set holds no key.
    NoKeys,
}

/// What comes out of reading the key that verifies seals from the configuration.
pub enum MasterKey {
    /// The key.
    Key(PublicKey),
    /// The key set cannot be read.
    Unreadable,
    /// The key set holds no key.
    NoKeys,
}

/// Whether a network has keys, so that it can sign.
pub fn is_usable(netinfo: &NetworkInfo<H512>) -> (usable: bool)
    ensures
        usable == has_keys(*netinfo),
{
    !is_key_set_empty(&public_key_set(netinfo))
}

/// The network that the parts of a configuration describe.
pub open spec fn network_setup(
    our_id: NodeId,
    share: Option<SecretKeyShare>,
    keys: Option<PublicKeySet>,
    ids: Option<Seq<NodeId>>,
) -> NetworkSetup {
    match (share, keys, ids) {
        (Some(s), Some(k), Some(i)) => if i.len() == 0 {
            NetworkSetup::NoValidators
        } else if key_set_empty(k) {
            NetworkSetup::NoKeys
        } else {
            NetworkSetup::Ready(network_of(our_id, s, k, i))
        },
        _ => NetworkSetup::Incomplete,
    }
}

/// The network that a configuration describes to the node with the id `our_id`.
pub open spec fn configured_network(options: HbbftOptions, our_id: NodeId) -> NetworkSetup {
    network_setup(
        our_id,
        secret_share_from(options.hbbft_secret_share@),
        key_set_from(options.hbbft_public_key_set@),
        validator_ids_from(options.hbbft_validator_ip_addresses@),
    )
}

/// Reads the network information from the configuration. All parts must be there, and the node
/// set must not be empty.
pub fn new_network_info(options: &HbbftOptions, our_id: NodeId) -> (setup: NetworkSetup)
    ensures
        setup == configured_network(*options, our_id),
        setup matches NetworkSetup::Ready(netinfo) ==> {
            let ids = validator_ids_from(options.hbbft_validator_ip_addresses@).unwrap();
            &&& has_keys(netinfo)
            &&& network_our_id(netinfo) == our_id
            &&& network_ids(netinfo).to_multiset() == ids.to_multiset()
            &&& network_faulty(netinfo) == (ids.len() - 1) / 3
        },
{
    let share = match parse_secret_share(options.hbbft_secret_share.as_str()) {
        Some(share) => share,
        None => return NetworkSetup::Incomplete,
    };
    let keys = match parse_key_set(options.hbbft_public_key_set.as_str()) {
        Some(keys) => keys,
        None => return NetworkSetup::Incomplete,
    };
    let ids = match parse_validator_ids(options.hbbft_validator_ip_addresses.as_str()) {
        Some(ids) => ids,
        None => return NetworkSetup::Incomplete,
    };
    if ids.len() == 0 {
        return NetworkSetup::NoValidators;
    }
    if is_key_set_empty(&keys) {
        return NetworkSetup::NoKeys;
    }
    NetworkSetup::Ready(make_network_info(our_id, share, keys, &ids))
}

/// The key that verifies seals, according to a key set that was read.
pub open spec fn master_key_of(keys: Option<PublicKeySet>) -> MasterKey {
    match keys {
        None => MasterKey::Unreadable,
        Some(k) => if key_set_empty(k) {
            MasterKey::NoKeys
        } else {
            MasterKey::Key(master_key(k))
        },
    }
}

/// The key that verifies seals, according to a configuration.
pub open spec fn configured_key(options: HbbftOptions) -> MasterKey {
    master_key_of(key_set_from(options.hbbft_public_key_set@))
}

/// The key that verifies the seals of all blocks, according to the configured key set.
pub fn public_master_key(options: &HbbftOptions) -> (key: MasterKey)
    ensures
        key == configured_key(*options),
{
    match parse_key_set(options.hbbft_public_key_set.as_str()) {
        Some(keys) => if is_key_set_empty(&keys) {
            MasterKey::NoKeys
        } else {
            MasterKey::Key(key_set_master_key(&keys))
        },
        None => MasterKey::Unreadable,
    }
}

/// A network is ready exactly if the share, the key set and the validators can be read, there are
/// validators and the key set holds a key. It is then made of these parts, with this node's id.
pub proof fn law_network_read(options: HbbftOptions, our_id: NodeId, setup: NetworkSetup)
    requires
        call_ensures(new_network_info, (&options, our_id), setup),
    ensures
        ({
            let share = secret_share_from(options.hbbft_secret_share@);
            let keys = key_set_from(options.hbbft_public_key_set@);
            let ids = validator_ids_from(options.hbbft_validator_ip_addresses@);
            &&& setup is Incomplete <==> share is None || keys is None || ids is None
            &&& setup is NoValidators <==> share is Some && keys is Some && (ids matches Some(i)
                && i.len() == 0)
            &&& setup is NoKeys <==> share is Some && (keys matches Some(k) && key_set_empty(k))
                && (ids matches Some(i) && i.len() > 0)
            &&& setup matches NetworkSetup::Ready(netinfo) ==> {
                &&& netinfo == network_of(our_id, share.unwrap(), keys.unwrap(), ids.unwrap())
                &&& network_our_id(netinfo) == our_id
                &&& network_ids(netinfo).to_multiset() == ids.unwrap().to_multiset()
                &&& 3 * network_faulty(netinfo) < ids.unwrap().len() <= 3 * network_faulty(netinfo)
                    + 3
                &&& !key_set_empty(network_keys(netinfo))
            }
        }),
        setup == configured_network(options, our_id),
{
}

/// The key that verifies seals is that of the configured key set, if that can be read and holds one.
pub proof fn law_master_key_read(options: HbbftOptions, key: MasterKey)
    requires
        call_ensures(public_master_key, (&options,), key),
    ensures
        key is Unreadable <==> key_set_from(options.hbbft_public_key_set@) is None,
        key is NoKeys <==> (key_set_from(options.hbbft_public_key_set@) matches Some(keys)
            && key_set_empty(keys)),
        key matches MasterKey::Key(k) ==> k == master_key(
            key_set_from(options.hbbft_public_key_set@).unwrap(),
        ),
        key == configured_key(options),
{
}

/// A network can be used exactly if its key set is not empty.
pub proof fn law_network_usable(netinfo: NetworkInfo<H512>, usable: bool)
    requires
        call_ensures(is_usable, (&netinfo,), usable),
    ensures
        usable <==> !key_set_empty(network_keys(netinfo)),
{
}

} // verus!
