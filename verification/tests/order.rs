use trade_types::{
    code_to_u64, parse_u32_le, parse_u64_le, CancelRequest, Direction, Exchange, Offset, Order,
    OrderData, OrderError, OrderRequest, OrderType, Status, Time,
};

#[test]
fn a_limit_request_with_volume_and_price_is_made() {
    let request = OrderRequest::new(
        "rb2410",
        Exchange::SHFE,
        Direction::LONG,
        OrderType::LIMIT,
        5,
        Some(3650.0),
        Offset::OPEN,
        1,
    )
    .unwrap();
    assert_eq!(request.symbol(), "rb2410");
    assert_eq!(request.exchange(), Exchange::SHFE);
    assert_eq!(request.direction(), Direction::LONG);
    assert_eq!(request.order_type(), OrderType::LIMIT);
    assert_eq!(request.volume(), 5);
    assert_eq!(*request.price(), Some(3650.0));
    assert_eq!(request.offset(), Offset::OPEN);
    assert_eq!(request.reference(), 1);
}

fn attempt(order_type: OrderType, volume: u64, price: Option<f64>) -> Result<(), OrderError> {
    OrderRequest::new(
        "rb2410",
        Exchange::SHFE,
        Direction::SHORT,
        order_type,
        volume,
        price,
        Offset::CLOSE,
        7,
    )
    .map(|_| ())
}

#[test]
fn a_request_for_no_lots_is_refused() {
    assert_eq!(attempt(OrderType::LIMIT, 0, Some(3650.0)), Err(OrderError::NonPositiveVolume));
    assert_eq!(attempt(OrderType::MARKET, 0, None), Err(OrderError::NonPositiveVolume));
}

#[test]
fn a_limit_or_stop_request_without_a_price_is_refused() {
    assert_eq!(attempt(OrderType::LIMIT, 1, None), Err(OrderError::MissingPrice));
    assert_eq!(attempt(OrderType::STOP, 1, None), Err(OrderError::MissingPrice));
    assert_eq!(attempt(OrderType::STOP, 1, Some(3600.0)), Ok(()));
}

#[test]
fn the_volume_is_judged_before_the_price() {
    assert_eq!(attempt(OrderType::LIMIT, 0, None), Err(OrderError::NonPositiveVolume));
    assert_eq!(attempt(OrderType::STOP, 0, None), Err(OrderError::NonPositiveVolume));
}

#[test]
fn other_order_types_carry_a_price_or_none() {
    for order_type in [OrderType::MARKET, OrderType::FAK, OrderType::FOK] {
        assert_eq!(attempt(order_type, 1, None), Ok(()));
        assert_eq!(attempt(order_type, u64::MAX, Some(1.5)), Ok(()));
    }
    let market = OrderRequest::new(
        "IF2503",
        Exchange::CFFEX,
        Direction::SHORT,
        OrderType::MARKET,
        2,
        Some(4000.25),
        Offset::CLOSETODAY,
        99,
    )
    .unwrap();
    assert_eq!(*market.price(), Some(4000.25));
    assert_eq!(market.offset(), Offset::CLOSETODAY);
}

#[test]
fn an_acknowledged_order_holds_what_the_venue_reported() {
    let order = OrderData {
        symbol: code_to_u64("rb2410"),
        exchange: Exchange::SHFE,
        token: 17,
        order_id: 1001,
        trade_id: 0,
        order_type: OrderType::LIMIT,
        direction: Direction::LONG,
        offset: Offset::OPEN,
        price: 3650.0,
        volume: 5,
        status: Status::NOTTRADED,
        timestamp: Time { timestamp: 1_700_000_000, ms: 500 },
    };
    let filled = OrderData { status: Status::ALLTRADED, trade_id: 88, ..order };
    assert_eq!(order.status, Status::NOTTRADED);
    assert_eq!(filled.status, Status::ALLTRADED);
    assert_eq!(filled.order_id, order.order_id);
    assert_eq!(filled.price, 3650.0);
    assert_ne!(order, filled);
}

#[test]
fn a_cancel_request_names_the_order() {
    let cancel = CancelRequest { order_id: 1001 };
    assert_eq!(cancel.order_id, 1001);
    assert_eq!(cancel, CancelRequest { order_id: 1001 });
}

/// An acknowledgement as it comes off the wire: token, order id, then one
/// byte each for direction, offset, status and order type.
struct RawOrder<'a>(&'a [u8]);

impl<'a> Order<'a, f64> for RawOrder<'a> {
    fn price(&self) -> f64 {
        3650.0
    }

    fn volume(&self) -> f64 {
        5.0
    }

    fn direction(&self) -> Direction {
        Direction::from_code(self.0[12]).unwrap()
    }

    fn datetime(&self) -> String {
        String::new()
    }

    fn offset(&self) -> Offset {
        Offset::from_code(self.0[13]).unwrap()
    }

    fn status(&self) -> Status {
        Status::from_code(self.0[14]).unwrap()
    }

    fn order_type(&self) -> OrderType {
        OrderType::from_code(self.0[15]).unwrap()
    }

    fn token(&self) -> u32 {
        parse_u32_le(&self.0[..4]).unwrap()
    }

    fn order_id(&self) -> u64 {
        parse_u64_le(&self.0[4..12]).unwrap()
    }

    fn dummy(&self) -> &'a [u8] {
        self.0
    }
}

#[test]
fn an_order_reads_its_fields_off_the_wire() {
    let bytes = [17, 0, 0, 0, 0xe9, 0x03, 0, 0, 0, 0, 0, 0, 1, 0, 3, 4];
    let order = RawOrder(&bytes);
    assert_eq!(order.token(), 17);
    assert_eq!(order.order_id(), 1001);
    assert_eq!(order.direction(), Direction::LONG);
    assert_eq!(order.offset(), Offset::OPEN);
    assert_eq!(order.status(), Status::ALLTRADED);
    assert_eq!(order.order_type(), OrderType::FOK);
    assert_eq!(order.dummy(), bytes);
    assert_eq!(order.price(), 3650.0);
    assert_eq!(order.volume(), 5.0);
}
