use vstd::prelude::*;
use vstd::string::StringExecFns;

use crate::wire::get_value;
use crate::wire::Request;
use crate::wire::Status;

verus! {

/// One order on record.
#[derive(Clone, Debug)]
pub struct Order {
    pub id: String,
    pub label: String,
    pub amount: u64,
}

/// The answer to an orders query.
#[derive(Clone, Debug)]
pub struct GetMyOrdersResponse {
    pub orders: Vec<Order>,
}

/// The demo order-book service: answers any identified caller with the same
/// two orders.
#[derive(Clone, Copy, Debug, Default)]
pub struct Orders {}

impl Orders {
    /// The caller's orders. The caller's identity must have been placed in
    /// the request's metadata under `user_id` by an authentication
    /// interceptor.
    pub fn get_my_orders(&self, request: Request) -> (r: Result<GetMyOrdersResponse, Status>)
        requires
            get_value(request@.meta, "user_id"@) is Some,
        ensures
            r matches Ok(resp) && ({
                let os = resp.orders@;
                &&& os.len() == 2
                &&& os[0].id@ == "ord001"@
                &&& os[0].label@ == "Christmas gifts"@
                &&& os[0].amount == 350
                &&& os[1].id@ == "ord002"@
                &&& os[1].label@ == "Home office equipment"@
                &&& os[1].amount == 1150
            }),
    {
        let mut orders: Vec<Order> = Vec::new();
        orders.push(
            Order {
                id: String::from_str("ord001"),
                label: String::from_str("Christmas gifts"),
                amount: 350,
            },
        );
        orders.push(
            Order {
                id: String::from_str("ord002"),
                label: String::from_str("Home office equipment"),
                amount: 1150,
            },
        );
        Ok(GetMyOrdersResponse { orders })
    }
}

} // verus!
