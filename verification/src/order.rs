//! Orders: what a venue has acknowledged, what a caller asks for, and the
//! request to withdraw.
//!
//! `P` is the number type of prices; the records carry prices and never
//! compute with them.

use vstd::prelude::*;
use crate::clock::Time;
use crate::vocab::{Direction, Exchange, Offset, OrderType, Status};

verus! {

/// Why an order request was refused.
#[derive(Clone, Copy, Debug, PartialEq, Eq, Hash, Structural)]
pub enum OrderError {
    /// The request asks for no lots at all.
    NonPositiveVolume,
    /// The order type executes at a stated price and none was given.
    MissingPrice,
}

impl OrderType {
    /// Whether an order of this type executes at a price of its own. Only
    /// limit and stop orders do; the others carry a price without reading it.
    pub open spec fn spec_needs_price(self) -> bool {
        self == OrderType::LIMIT || self == OrderType::STOP
    }

    /// Whether an order of this type executes at a price of its own.
    pub fn needs_price(self) -> (needed: bool)
        ensures
            needed == self.spec_needs_price(),
    {
        match self {
            OrderType::LIMIT | OrderType::STOP => true,
            _ => false,
        }
    }
}

/// The state of an order as the venue acknowledged it. A record is one
/// reported fact: when the venue reports a change, that is a new record.
#[derive(Clone, Copy, Debug, PartialEq)]
pub struct OrderData<P> {
    /// Symbol of the instrument, packed into a number.
    pub symbol: u64,
    pub exchange: Exchange,
    /// Account token under which the order was placed.
    pub token: u32,
    pub order_id: u64,
    pub trade_id: u64,
    pub order_type: OrderType,
    pub direction: Direction,
    pub offset: Offset,
    pub price: P,
    /// Lots.
    pub volume: u64,
    pub status: Status,
    /// When the venue reported this state.
    pub timestamp: Time,
}

/// The request to withdraw an order, named by its id.
#[derive(Clone, Copy, Debug, PartialEq, Eq, Hash, Structural)]
pub struct CancelRequest {
    pub order_id: u64,
}

/// What an order request holds.
pub struct OrderRequestView<P> {
    pub symbol: Seq<char>,
    pub exchange: Exchange,
    pub direction: Direction,
    pub order_type: OrderType,
    pub volume: u64,
    pub price: Option<P>,
    pub offset: Offset,
    pub reference: u64,
}

/// An order that a caller intends to place and no venue has acknowledged
/// yet. It asks for at least one lot, and it states a price if its type
/// executes at one; `new` lets no other request come into being.
#[derive(Debug)]
pub struct OrderRequest<'a, P> {
    symbol: &'a str,
    exchange: Exchange,
    direction: Direction,
    order_type: OrderType,
    volume: u64,
    price: Option<P>,
    offset: Offset,
    reference: u64,
}

/// What is wrong with a request for `volume` lots of the given type, with
/// or without a price; `None` if nothing is. The volume is judged first.
pub open spec fn request_fault(order_type: OrderType, volume: u64, has_price: bool) -> Option<
    OrderError,
> {
    if volume == 0 {
        Some(OrderError::NonPositiveVolume)
    } else if order_type.spec_needs_price() && !has_price {
        Some(OrderError::MissingPrice)
    } else {
        None
    }
}

impl<'a, P> View for OrderRequest<'a, P> {
    type V = OrderRequestView<P>;

    closed spec fn view(&self) -> OrderRequestView<P> {
        OrderRequestView {
            symbol: self.symbol@,
            exchange: self.exchange,
            direction: self.direction,
            order_type: self.order_type,
            volume: self.volume,
            price: self.price,
            offset: self.offset,
            reference: self.reference,
        }
    }
}

impl<'a, P> OrderRequest<'a, P> {
    #[verifier::type_invariant]
    spec fn well_formed(self) -> bool {
        request_fault(self.order_type, self.volume, self.price is Some) is None
    }

    /// Makes a request, or says what is wrong with it. A market, FAK or FOK
    /// order may come with or without a price; the price is kept as given.
    pub fn new(
        symbol: &'a str,
        exchange: Exchange,
        direction: Direction,
        order_type: OrderType,
        volume: u64,
        price: Option<P>,
        offset: Offset,
        reference: u64,
    ) -> (made: Result<Self, OrderError>)
        ensures
            match request_fault(order_type, volume, price is Some) {
                Some(fault) => made is Err && made->Err_0 == fault,
                None => made is Ok && made->Ok_0@ == (OrderRequestView {
                    symbol: symbol@,
                    exchange,
                    direction,
                    order_type,
                    volume,
                    price,
                    offset,
                    reference,
                }),
            },
    {
        if volume == 0 {
            return Err(OrderError::NonPositiveVolume);
        }
        if order_type.needs_price() && price.is_none() {
            return Err(OrderError::MissingPrice);
        }
        Ok(OrderRequest { symbol, exchange, direction, order_type, volume, price, offset, reference })
    }

    /// Symbol of the instrument.
    pub fn symbol(&self) -> (symbol: &'a str)
        ensures
            symbol@ == self@.symbol,
    {
        self.symbol
    }

    pub fn exchange(&self) -> (exchange: Exchange)
        ensures
            exchange == self@.exchange,
    {
        self.exchange
    }

    pub fn direction(&self) -> (direction: Direction)
        ensures
            direction == self@.direction,
    {
        self.direction
    }

    pub fn order_type(&self) -> (order_type: OrderType)
        ensures
            order_type == self@.order_type,
    {
        self.order_type
    }

    /// Lots asked for; never zero.
    pub fn volume(&self) -> (volume: u64)
        ensures
            volume == self@.volume,
            volume > 0,
    {
        proof {
            use_type_invariant(self);
        }
        self.volume
    }

    /// The price, if the request states one; a limit or stop request
    /// always does.
    pub fn price(&self) -> (price: &Option<P>)
        ensures
            *price == self@.price,
            self@.order_type.spec_needs_price() ==> price is Some,
    {
        proof {
            use_type_invariant(self);
        }
        &self.price
    }

    pub fn offset(&self) -> (offset: Offset)
        ensures
            offset == self@.offset,
    {
        self.offset
    }

    /// The caller's own id, by which it recognises the acknowledgement.
    pub fn reference(&self) -> (reference: u64)
        ensures
            reference == self@.reference,
    {
        self.reference
    }
}

/// What an order record of any shape lets a reader ask.
pub trait Order<'a, P> {
    fn price(&self) -> P;

    /// Lots, in the number type of prices.
    fn volume(&self) -> P;

    fn direction(&self) -> Direction;

    /// When the order was placed, as text.
    fn datetime(&self) -> String;

    fn offset(&self) -> Offset;

    fn status(&self) -> Status;

    fn order_type(&self) -> OrderType;

    /// Account token under which the order was placed.
    fn token(&self) -> u32;

    fn order_id(&self) -> u64;

    /// The bytes that the record was decoded from.
    fn dummy(&self) -> &'a [u8];
}

} // verus!
