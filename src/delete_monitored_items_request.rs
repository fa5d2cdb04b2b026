use vstd::prelude::*;

verus! {

/// Identifier of a monitored item within a subscription.
#[derive(Clone, Copy, Debug, PartialEq, Eq, Structural)]
pub struct MonitoredItemId {
    pub id: u32,
}

impl MonitoredItemId {
    /// Wraps a raw monitored-item identifier.
    pub fn new(id: u32) -> (r: MonitoredItemId)
        ensures
            r.id == id,
    {
        MonitoredItemId { id }
    }

    /// Returns the raw monitored-item identifier.
    pub fn into_inner(self) -> (r: u32)
        ensures
            r == self.id,
    {
        self.id
    }
}

/// Request that deletes monitored items of one subscription.
pub struct DeleteMonitoredItemsRequest {
    subscription_id: u32,
    monitored_item_ids: Vec<u32>,
}

impl DeleteMonitoredItemsRequest {
    /// The subscription whose items are deleted.
    pub closed spec fn spec_subscription_id(&self) -> u32 {
        self.subscription_id
    }

    /// The raw identifiers of the items to delete, in order.
    pub closed spec fn spec_monitored_item_ids(&self) -> Seq<u32> {
        self.monitored_item_ids@
    }

    /// An empty request: subscription zero, no items.
    pub fn new() -> (r: DeleteMonitoredItemsRequest)
        ensures
            r.spec_subscription_id() == 0,
            r.spec_monitored_item_ids() == Seq::<u32>::empty(),
    {
        DeleteMonitoredItemsRequest { subscription_id: 0, monitored_item_ids: Vec::new() }
    }

    /// Sets the subscription, keeping the items.
    pub fn with_subscription_id(self, subscription_id: u32) -> (r: DeleteMonitoredItemsRequest)
        ensures
            r.spec_subscription_id() == subscription_id,
            r.spec_monitored_item_ids() == self.spec_monitored_item_ids(),
    {
        DeleteMonitoredItemsRequest { subscription_id, monitored_item_ids: self.monitored_item_ids }
    }

    /// Replaces the items to delete by the given ones, in their order, keeping the
    /// subscription.
    pub fn with_monitored_item_ids(self, monitored_item_ids: &[MonitoredItemId]) -> (r:
        DeleteMonitoredItemsRequest)
        ensures
            r.spec_subscription_id() == self.spec_subscription_id(),
            r.spec_monitored_item_ids() == monitored_item_ids@.map_values(
                |m: MonitoredItemId| m.id,
            ),
    {
        let mut ids: Vec<u32> = Vec::new();
        let mut i: usize = 0;
        while i < monitored_item_ids.len()
            invariant
                i <= monitored_item_ids@.len(),
                ids@ == monitored_item_ids@.subrange(0, i as int).map_values(
                    |m: MonitoredItemId| m.id,
                ),
            decreases monitored_item_ids@.len() - i,
        {
            ids.push(monitored_item_ids[i].into_inner());
            i = i + 1;
            proof {
                assert(ids@ =~= monitored_item_ids@.subrange(0, i as int).map_values(
                    |m: MonitoredItemId| m.id,
                ));
            }
        }
        proof {
            assert(monitored_item_ids@.subrange(0, i as int) =~= monitored_item_ids@);
        }
        DeleteMonitoredItemsRequest { subscription_id: self.subscription_id, monitored_item_ids: ids }
    }

    /// Returns the subscription whose items are deleted.
    pub fn subscription_id(&self) -> (r: u32)
        ensures
            r == self.spec_subscription_id(),
    {
        self.subscription_id
    }

    /// Returns the raw identifiers of the items to delete, in order.
    pub fn monitored_item_ids(&self) -> (r: &[u32])
        ensures
            r@ == self.spec_monitored_item_ids(),
    {
        self.monitored_item_ids.as_slice()
    }
}

impl Default for DeleteMonitoredItemsRequest {
    fn default() -> (r: DeleteMonitoredItemsRequest)
        ensures
            r.spec_subscription_id() == 0,
            r.spec_monitored_item_ids() == Seq::<u32>::empty(),
    {
        DeleteMonitoredItemsRequest::new()
    }
}

} // verus!
