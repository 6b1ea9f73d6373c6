use vstd::prelude::*;

use crate::ids::{is_drawn_uuid_v4, is_uuid_v4_text, new_uuid_v4_text};
use crate::postgres::dto::OrderDetailsDto;
use crate::postgres::serializable::{BrokerSerializable, TradingPlatformSerializable};

verus! {

/// Why a trader account order is refused.
#[derive(Debug, Clone, Copy, PartialEq, Eq, Structural)]
pub enum CreateTraderAccountOrderFlowError {
    /// No published trading package has the requested id.
    PackageNotFound,
}

/// Whether some published package has the id `id`.
pub open spec fn is_published(published_package_ids: Seq<String>, id: Seq<char>) -> bool {
    exists|j: int| 0 <= j < published_package_ids.len() && (#[trigger] published_package_ids[j])@ == id
}

/// The position of the first published package whose id is
/// `trading_package_id`, or `PackageNotFound` where none has it.
pub fn find_published_package(published_package_ids: &Vec<String>, trading_package_id: &String) -> (r: Result<usize, CreateTraderAccountOrderFlowError>)
    ensures
        r matches Ok(i) ==> i < published_package_ids@.len()
            && published_package_ids@[i as int]@ == trading_package_id@
            && forall|j: int| 0 <= j < i ==> (#[trigger] published_package_ids@[j])@ != trading_package_id@,
        r is Err <==> !is_published(published_package_ids@, trading_package_id@),
        r is Err ==> r == Err::<usize, _>(CreateTraderAccountOrderFlowError::PackageNotFound),
{
    let n = published_package_ids.len();
    for i in 0..n
        invariant
            n == published_package_ids@.len(),
            forall|j: int| 0 <= j < i ==> (#[trigger] published_package_ids@[j])@ != trading_package_id@,
    {
        if published_package_ids[i] == *trading_package_id {
            return Ok(i);
        }
    }
    Err(CreateTraderAccountOrderFlowError::PackageNotFound)
}

/// The process id under which the personal data of an order is kept:
/// `create_order_` followed by the order id.
pub fn order_process_id(order_id: &String) -> (r: String)
    ensures
        r@ == "create_order_"@ + order_id@,
{
    let mut process_id = String::from_str("create_order_");
    process_id.append(order_id.as_str());
    process_id
}

/// The details stored for an order: its id and its serialized trading package.
pub fn order_details(order_id: &String, serialized_package: String) -> (r: OrderDetailsDto)
    ensures
        r.order_id == *order_id,
        r.trading_package == serialized_package,
{
    OrderDetailsDto { order_id: order_id.clone(), trading_package: serialized_package }
}

/// What the flow does for an accepted order: which published package is
/// bought, the order's fresh id, the process id of its personal data, and the
/// broker and platform that the request's codes name.
pub struct TraderAccountOrderPlan {
    pub package_index: usize,
    pub order_id: String,
    pub process_id: String,
    pub broker: BrokerSerializable,
    pub trading_platform: TradingPlatformSerializable,
}

/// Decides an order for the trading package `trading_package_id`: refused with
/// `PackageNotFound` where no published package has that id, else accepted for
/// the first one that has it, under a fresh random order id. An order for a
/// published package whose broker or platform code names none is outside the
/// domain.
pub fn plan_trader_account_order(
    published_package_ids: &Vec<String>,
    trading_package_id: &String,
    broker_model: i32,
    trading_platform: i32,
) -> (r: Result<TraderAccountOrderPlan, CreateTraderAccountOrderFlowError>)
    requires
        is_published(published_package_ids@, trading_package_id@) ==> (
            BrokerSerializable::from_code(broker_model) is Some
            && TradingPlatformSerializable::from_code(trading_platform) is Some),
    ensures
        r is Err <==> !is_published(published_package_ids@, trading_package_id@),
        r matches Err(e) ==> e == CreateTraderAccountOrderFlowError::PackageNotFound,
        r matches Ok(plan) ==> {
            &&& plan.package_index < published_package_ids@.len()
            &&& published_package_ids@[plan.package_index as int]@ == trading_package_id@
            &&& forall|j: int| 0 <= j < plan.package_index ==> (#[trigger] published_package_ids@[j])@ != trading_package_id@
            &&& is_uuid_v4_text(plan.order_id@)
            &&& is_drawn_uuid_v4(plan.order_id@)
            &&& plan.process_id@ == "create_order_"@ + plan.order_id@
            &&& Some(plan.broker) == BrokerSerializable::from_code(broker_model)
            &&& Some(plan.trading_platform) == TradingPlatformSerializable::from_code(trading_platform)
        },
{
    let package_index = match find_published_package(published_package_ids, trading_package_id) {
        Ok(i) => i,
        Err(e) => return Err(e),
    };
    let broker = BrokerSerializable::from_i32(broker_model);
    let trading_platform = TradingPlatformSerializable::from_i32(trading_platform);
    let order_id = new_uuid_v4_text();
    let process_id = order_process_id(&order_id);
    Ok(TraderAccountOrderPlan { package_index, order_id, process_id, broker, trading_platform })
}

} // verus!
