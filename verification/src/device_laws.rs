//! Properties of the device state machine that span several operations.
use vstd::prelude::*;
use crate::characteristic::{CharacteristicRecordView, DiscoveredServiceView};
use crate::device::{
    cache_lookup, discovered_step, discovery_cache, disconnect_state, find_spec,
    not_connected_action, notification_event, read_step, service_cache_entries, stream_end_state,
    subscribe_result_step, subscribe_step, unsubscribe_step, write_step, CacheEntryView,
    DeviceActionView, DeviceView, SubscribePlanView,
};
use crate::text::unicode_lowercase;
use crate::types::DeviceEventView;

verus! {

/// A device that is not connected refuses every characteristic operation
/// with the not-connected failure and keeps its state.
pub proof fn lemma_disconnected_device_refuses(
    d: DeviceView,
    service_key: Seq<char>,
    char_key: Seq<char>,
    service_uuid: Seq<char>,
    char_uuid: Seq<char>,
    data: Seq<u8>,
    with_response: bool,
    dispatcher_finished: bool,
    list: Seq<CharacteristicRecordView>,
)
    requires
        !d.connected,
    ensures
        read_step(d, service_key, char_key, service_uuid, char_uuid, list) == not_connected_action(
            "read_characteristic"@,
        ),
        write_step(d, service_key, char_key, service_uuid, char_uuid, data, with_response, list)
            == not_connected_action("write_characteristic"@),
        subscribe_step(d, service_key, char_key, service_uuid, char_uuid, dispatcher_finished, list)
            == (d, SubscribePlanView {
            abort_dispatcher: false,
            start_dispatcher: None,
            action: not_connected_action("subscribe_characteristic"@),
        }),
        unsubscribe_step(d, service_key, char_key, service_uuid, char_uuid, list) == (
            d,
            not_connected_action("unsubscribe_characteristic"@),
        ),
{
}

/// While a subscription is held, asking for it again changes nothing and
/// starts nothing.
pub proof fn lemma_repeated_subscription_is_ignored(
    d: DeviceView,
    service_key: Seq<char>,
    char_key: Seq<char>,
    service_uuid: Seq<char>,
    char_uuid: Seq<char>,
    dispatcher_finished: bool,
    list: Seq<CharacteristicRecordView>,
    other_service_key: Seq<char>,
    other_service_uuid: Seq<char>,
    other_char_uuid: Seq<char>,
    other_finished: bool,
    other_list: Seq<CharacteristicRecordView>,
)
    requires
        d.connected,
        subscribe_step(d, service_key, char_key, service_uuid, char_uuid, dispatcher_finished, list).1.action is Subscribe,
    ensures
        ({
            let d1 = subscribe_step(
                d,
                service_key,
                char_key,
                service_uuid,
                char_uuid,
                dispatcher_finished,
                list,
            ).0;
            subscribe_step(
                d1,
                other_service_key,
                char_key,
                other_service_uuid,
                other_char_uuid,
                other_finished,
                other_list,
            ) == (d1, SubscribePlanView {
                abort_dispatcher: false,
                start_dispatcher: None,
                action: DeviceActionView::Nothing,
            })
        }),
{
}

/// Subscribing to a characteristic and then unsubscribing from it leaves
/// the set of subscriptions as it was.
pub proof fn lemma_unsubscribe_undoes_subscribe(
    d: DeviceView,
    service_key: Seq<char>,
    char_key: Seq<char>,
    service_uuid: Seq<char>,
    char_uuid: Seq<char>,
    dispatcher_finished: bool,
    list: Seq<CharacteristicRecordView>,
    service_key2: Seq<char>,
    service_uuid2: Seq<char>,
    char_uuid2: Seq<char>,
    list2: Seq<CharacteristicRecordView>,
)
    requires
        d.connected,
        !d.subscribed.contains(char_key),
    ensures
        ({
            let d1 = subscribe_step(
                d,
                service_key,
                char_key,
                service_uuid,
                char_uuid,
                dispatcher_finished,
                list,
            ).0;
            let d2 = unsubscribe_step(d1, service_key2, char_key, service_uuid2, char_uuid2, list2).0;
            d2.subscribed == d.subscribed
        }),
{
    assert(d.subscribed.insert(char_key).remove(char_key) =~= d.subscribed);
    assert(d.subscribed.remove(char_key) =~= d.subscribed);
    assert(d.subscribed.insert(char_key).remove(char_key).remove(char_key) =~= d.subscribed);
}

/// Once a subscription is ended, notifications of that characteristic are
/// no longer reported, even before the peripheral confirms.
pub proof fn lemma_unsubscribe_stops_notifications(
    d: DeviceView,
    service_key: Seq<char>,
    char_key: Seq<char>,
    service_uuid: Seq<char>,
    char_uuid: Seq<char>,
    list: Seq<CharacteristicRecordView>,
    uuid: Seq<char>,
    data: Seq<u8>,
)
    requires
        d.connected,
    ensures
        notification_event(
            unsubscribe_step(d, service_key, char_key, service_uuid, char_uuid, list).0,
            char_key,
            uuid,
            data,
        ) is None,
{
}

/// A subscription whose background work failed can be asked for again: the
/// failure restores the subscriptions held before the request.
pub proof fn lemma_failed_subscription_is_released(
    d: DeviceView,
    service_key: Seq<char>,
    char_key: Seq<char>,
    service_uuid: Seq<char>,
    char_uuid: Seq<char>,
    dispatcher_finished: bool,
    list: Seq<CharacteristicRecordView>,
    error: Seq<char>,
)
    requires
        d.connected,
        !d.subscribed.contains(char_key),
    ensures
        ({
            let d1 = subscribe_step(
                d,
                service_key,
                char_key,
                service_uuid,
                char_uuid,
                dispatcher_finished,
                list,
            ).0;
            let d2 = subscribe_result_step(d1, char_uuid, char_key, Err(error)).0;
            &&& d2.subscribed == d.subscribed
            &&& !d2.subscribed.contains(char_key)
        }),
{
    assert(d.subscribed.insert(char_key).remove(char_key) =~= d.subscribed);
    assert(d.subscribed.insert(char_key).remove(char_key).remove(char_key) =~= d.subscribed);
}

/// After `disconnect`, nothing is subscribed, no dispatcher runs, and no
/// notification is reported any more.
pub proof fn lemma_disconnect_ends_notifications(
    d: DeviceView,
    key: Seq<char>,
    uuid: Seq<char>,
    data: Seq<u8>,
)
    ensures
        disconnect_state(d).subscribed == Set::<Seq<char>>::empty(),
        !disconnect_state(d).dispatcher,
        notification_event(disconnect_state(d), key, uuid, data) is None,
{
}

/// When the notification stream ends, the device counts as disconnected,
/// holds no subscription, reports no further notification and refuses new
/// characteristic operations.
pub proof fn lemma_stream_end_disconnects(
    d: DeviceView,
    key: Seq<char>,
    uuid: Seq<char>,
    data: Seq<u8>,
    service_key: Seq<char>,
    service_uuid: Seq<char>,
    list: Seq<CharacteristicRecordView>,
)
    ensures
        !stream_end_state(d).connected,
        stream_end_state(d).subscribed == Set::<Seq<char>>::empty(),
        notification_event(stream_end_state(d), key, uuid, data) is None,
        read_step(stream_end_state(d), service_key, key, service_uuid, uuid, list)
            == not_connected_action("read_characteristic"@),
{
}

proof fn lemma_cache_lookup_finds(cache: Seq<CacheEntryView>, k: int)
    requires
        0 <= k < cache.len(),
    ensures
        ({
            let r = cache_lookup(cache, cache[k].service_key, cache[k].char_key);
            &&& r is Some
            &&& exists|m: int|
                0 <= m < cache.len() && cache[m].service_key == cache[k].service_key
                    && cache[m].char_key == cache[k].char_key && #[trigger] cache[m].characteristic
                    == r->0
        }),
    decreases cache.len(),
{
    let sk = cache[k].service_key;
    let ck = cache[k].char_key;
    if cache.last().service_key == sk && cache.last().char_key == ck {
        assert(cache[cache.len() - 1].characteristic == cache.last().characteristic);
    } else {
        let init = cache.drop_last();
        assert(k < cache.len() - 1);
        assert(init[k] == cache[k]);
        lemma_cache_lookup_finds(init, k);
        let r = cache_lookup(init, sk, ck);
        let m = choose|m: int|
            0 <= m < init.len() && init[m].service_key == sk && init[m].char_key == ck
                && #[trigger] init[m].characteristic == r->0;
        assert(cache[m] == init[m]);
    }
}

proof fn lemma_discovery_cache_entry(services: Seq<DiscoveredServiceView>, i: int, j: int) -> (k: int)
    requires
        0 <= i < services.len(),
        0 <= j < services[i].characteristics.len(),
    ensures
        0 <= k < discovery_cache(services).len(),
        discovery_cache(services)[k].service_key == unicode_lowercase(services[i].uuid),
        discovery_cache(services)[k].char_key == unicode_lowercase(
            services[i].characteristics[j].uuid,
        ),
    decreases services.len(),
{
    let init = services.drop_last();
    let prefix = discovery_cache(init);
    if i == services.len() - 1 {
        assert(service_cache_entries(services.last())[j].char_key == unicode_lowercase(
            services.last().characteristics[j].uuid,
        ));
        prefix.len() + j
    } else {
        assert(init[i] == services[i]);
        let k = lemma_discovery_cache_entry(init, i, j);
        k
    }
}

proof fn lemma_discovery_cache_keys(services: Seq<DiscoveredServiceView>, k: int)
    requires
        0 <= k < discovery_cache(services).len(),
    ensures
        discovery_cache(services)[k].char_key == unicode_lowercase(
            discovery_cache(services)[k].characteristic.uuid,
        ),
    decreases services.len(),
{
    let init = services.drop_last();
    let prefix = discovery_cache(init);
    if k >= prefix.len() {
        let e = service_cache_entries(services.last());
        assert(discovery_cache(services)[k] == e[k - prefix.len()]);
    } else {
        lemma_discovery_cache_keys(init, k);
    }
}

/// After a discovery, every characteristic it found is found again under
/// the UUIDs of its service and of itself, whatever the peripheral's own
/// list holds, and what is found carries the requested UUID up to
/// lower-casing.
pub proof fn lemma_discovered_characteristics_are_found(
    d: DeviceView,
    services: Seq<DiscoveredServiceView>,
    i: int,
    j: int,
    list: Seq<CharacteristicRecordView>,
)
    requires
        0 <= i < services.len(),
        0 <= j < services[i].characteristics.len(),
    ensures
        ({
            let d1 = discovered_step(d, services).0;
            let service_uuid = services[i].uuid;
            let char_uuid = services[i].characteristics[j].uuid;
            let found = find_spec(
                d1,
                unicode_lowercase(service_uuid),
                unicode_lowercase(char_uuid),
                service_uuid,
                char_uuid,
                list,
            );
            &&& found is Some
            &&& unicode_lowercase(found->0.uuid) == unicode_lowercase(char_uuid)
        }),
{
    let cache = discovery_cache(services);
    let k = lemma_discovery_cache_entry(services, i, j);
    lemma_cache_lookup_finds(cache, k);
    let r = cache_lookup(cache, cache[k].service_key, cache[k].char_key);
    let m = choose|m: int|
        0 <= m < cache.len() && cache[m].service_key == cache[k].service_key && cache[m].char_key
            == cache[k].char_key && #[trigger] cache[m].characteristic == r->0;
    lemma_discovery_cache_keys(services, m);
}


/// On a connected device whose characteristic is found, a write request
/// asks to write exactly the caller's bytes to that characteristic, with
/// exactly the caller's choice of a response, and a read request asks to
/// read that characteristic; both carry the UUID as the caller wrote it.
pub proof fn lemma_found_characteristic_gets_the_request(
    d: DeviceView,
    service_key: Seq<char>,
    char_key: Seq<char>,
    service_uuid: Seq<char>,
    char_uuid: Seq<char>,
    data: Seq<u8>,
    with_response: bool,
    list: Seq<CharacteristicRecordView>,
)
    requires
        d.connected,
        find_spec(d, service_key, char_key, service_uuid, char_uuid, list) is Some,
    ensures
        ({
            let c = find_spec(d, service_key, char_key, service_uuid, char_uuid, list)->0;
            &&& write_step(d, service_key, char_key, service_uuid, char_uuid, data, with_response, list)
                == DeviceActionView::Write { characteristic: c, char_uuid, data, with_response }
            &&& read_step(d, service_key, char_key, service_uuid, char_uuid, list)
                == DeviceActionView::Read { characteristic: c, char_uuid }
        }),
{
}

/// A notification is reported exactly while its characteristic is
/// subscribed to, and then with the device's address, the UUID as the
/// peripheral sent it, and exactly the bytes received.
pub proof fn lemma_notifications_carry_received_bytes(
    d: DeviceView,
    key: Seq<char>,
    uuid: Seq<char>,
    data: Seq<u8>,
)
    ensures
        d.subscribed.contains(key) ==> notification_event(d, key, uuid, data) == Some(
            DeviceEventView::CharacteristicNotified { device_address: d.address, char_uuid: uuid, data },
        ),
        !d.subscribed.contains(key) ==> notification_event(d, key, uuid, data) is None,
{
}

} // verus!
