//! The closed enumerations of the order vocabulary.
//!
//! Every variant has one wire code, a `u8` that never changes, and one
//! canonical upper-case name. `code` and `from_code` are inverse to each
//! other on the codes in use; every other byte is refused.

use vstd::prelude::*;

verus! {

/// Side of an order or of a position.
#[derive(Clone, Copy, Debug, PartialEq, Eq, Hash, Structural)]
pub enum Direction {
    /// Buy side.
    LONG,
    /// Sell side.
    SHORT,
}

impl Direction {
    /// The wire code of the variant.
    pub open spec fn spec_code(self) -> u8 {
        match self {
            Direction::LONG => 1,
            Direction::SHORT => 0,
        }
    }

    /// The variant that `code` stands for; `None` for a byte that is the
    /// code of no variant.
    pub open spec fn spec_from_code(code: u8) -> Option<Direction> {
        if code == 0 {
            Some(Direction::SHORT)
        } else if code == 1 {
            Some(Direction::LONG)
        } else {
            None
        }
    }

    /// The canonical name of the variant.
    pub open spec fn spec_name(self) -> Seq<char> {
        match self {
            Direction::LONG => "LONG"@,
            Direction::SHORT => "SHORT"@,
        }
    }

    /// The wire code of the variant.
    pub fn code(self) -> (code: u8)
        ensures
            code == self.spec_code(),
    {
        match self {
            Direction::LONG => 1,
            Direction::SHORT => 0,
        }
    }

    /// The variant that `code` stands for, if it stands for one.
    pub fn from_code(code: u8) -> (decoded: Option<Direction>)
        ensures
            decoded == Self::spec_from_code(code),
    {
        match code {
            0 => Some(Direction::SHORT),
            1 => Some(Direction::LONG),
            _ => None,
        }
    }

    /// The canonical upper-case name of the variant.
    pub fn name(self) -> (name: &'static str)
        ensures
            name@ == self.spec_name(),
    {
        match self {
            Direction::LONG => "LONG",
            Direction::SHORT => "SHORT",
        }
    }

    /// Codes round-trip: a variant comes back from its own code, a byte that
    /// decodes at all is the code of what it decodes to, and so no two
    /// variants share a code.
    pub proof fn lemma_code_round_trip(variant: Direction, other: Direction, code: u8)
        ensures
            Self::spec_from_code(variant.spec_code()) == Some(variant),
            Self::spec_from_code(code) == Some(variant) <==> variant.spec_code() == code,
            Self::spec_from_code(code) is None <==> forall|any: Direction|
                #[trigger] any.spec_code() != code,
            variant.spec_code() == other.spec_code() ==> variant == other,
    {
        if let Some(found) = Self::spec_from_code(code) {
            assert(found.spec_code() == code);
        }
    }
}

/// Effect of an order on the position it touches.
#[derive(Clone, Copy, Debug, PartialEq, Eq, Hash, Structural)]
pub enum Offset {
    /// Opens a new position.
    OPEN,
    /// Closes an existing position.
    CLOSE,
    /// Closes lots opened in today's session.
    CLOSETODAY,
    /// Closes lots carried over from an earlier session.
    CLOSEYESTERDAY,
}

impl Offset {
    /// The wire code of the variant.
    pub open spec fn spec_code(self) -> u8 {
        match self {
            Offset::OPEN => 0,
            Offset::CLOSE => 1,
            Offset::CLOSETODAY => 2,
            Offset::CLOSEYESTERDAY => 3,
        }
    }

    /// The variant that `code` stands for; `None` for a byte that is the
    /// code of no variant.
    pub open spec fn spec_from_code(code: u8) -> Option<Offset> {
        if code == 0 {
            Some(Offset::OPEN)
        } else if code == 1 {
            Some(Offset::CLOSE)
        } else if code == 2 {
            Some(Offset::CLOSETODAY)
        } else if code == 3 {
            Some(Offset::CLOSEYESTERDAY)
        } else {
            None
        }
    }

    /// The canonical name of the variant.
    pub open spec fn spec_name(self) -> Seq<char> {
        match self {
            Offset::OPEN => "OPEN"@,
            Offset::CLOSE => "CLOSE"@,
            Offset::CLOSETODAY => "CLOSETODAY"@,
            Offset::CLOSEYESTERDAY => "CLOSEYESTERDAY"@,
        }
    }

    /// The wire code of the variant.
    pub fn code(self) -> (code: u8)
        ensures
            code == self.spec_code(),
    {
        match self {
            Offset::OPEN => 0,
            Offset::CLOSE => 1,
            Offset::CLOSETODAY => 2,
            Offset::CLOSEYESTERDAY => 3,
        }
    }

    /// The variant that `code` stands for, if it stands for one.
    pub fn from_code(code: u8) -> (decoded: Option<Offset>)
        ensures
            decoded == Self::spec_from_code(code),
    {
        match code {
            0 => Some(Offset::OPEN),
            1 => Some(Offset::CLOSE),
            2 => Some(Offset::CLOSETODAY),
            3 => Some(Offset::CLOSEYESTERDAY),
            _ => None,
        }
    }

    /// The canonical upper-case name of the variant.
    pub fn name(self) -> (name: &'static str)
        ensures
            name@ == self.spec_name(),
    {
        match self {
            Offset::OPEN => "OPEN",
            Offset::CLOSE => "CLOSE",
            Offset::CLOSETODAY => "CLOSETODAY",
            Offset::CLOSEYESTERDAY => "CLOSEYESTERDAY",
        }
    }

    /// Codes round-trip: a variant comes back from its own code, a byte that
    /// decodes at all is the code of what it decodes to, and so no two
    /// variants share a code.
    pub proof fn lemma_code_round_trip(variant: Offset, other: Offset, code: u8)
        ensures
            Self::spec_from_code(variant.spec_code()) == Some(variant),
            Self::spec_from_code(code) == Some(variant) <==> variant.spec_code() == code,
            Self::spec_from_code(code) is None <==> forall|any: Offset|
                #[trigger] any.spec_code() != code,
            variant.spec_code() == other.spec_code() ==> variant == other,
    {
        if let Some(found) = Self::spec_from_code(code) {
            assert(found.spec_code() == code);
        }
    }
}

/// Where an order stands in its life, as the venue reports it.
#[derive(Clone, Copy, Debug, PartialEq, Eq, Hash, Structural)]
pub enum Status {
    /// The venue refused the order.
    ERROR,
    /// Sent, not yet acknowledged.
    SUBMITTING,
    /// Resting, nothing filled.
    NOTTRADED,
    /// Filled completely.
    ALLTRADED,
    /// Withdrawn.
    CANCELLED,
    /// A withdrawal was refused.
    CANCELFAILED,
}

impl Status {
    /// The wire code of the variant.
    pub open spec fn spec_code(self) -> u8 {
        match self {
            Status::ERROR => 0,
            Status::SUBMITTING => 1,
            Status::NOTTRADED => 2,
            Status::ALLTRADED => 3,
            Status::CANCELLED => 4,
            Status::CANCELFAILED => 5,
        }
    }

    /// The variant that `code` stands for; `None` for a byte that is the
    /// code of no variant.
    pub open spec fn spec_from_code(code: u8) -> Option<Status> {
        if code == 0 {
            Some(Status::ERROR)
        } else if code == 1 {
            Some(Status::SUBMITTING)
        } else if code == 2 {
            Some(Status::NOTTRADED)
        } else if code == 3 {
            Some(Status::ALLTRADED)
        } else if code == 4 {
            Some(Status::CANCELLED)
        } else if code == 5 {
            Some(Status::CANCELFAILED)
        } else {
            None
        }
    }

    /// The canonical name of the variant.
    pub open spec fn spec_name(self) -> Seq<char> {
        match self {
            Status::ERROR => "ERROR"@,
            Status::SUBMITTING => "SUBMITTING"@,
            Status::NOTTRADED => "NOTTRADED"@,
            Status::ALLTRADED => "ALLTRADED"@,
            Status::CANCELLED => "CANCELLED"@,
            Status::CANCELFAILED => "CANCELFAILED"@,
        }
    }

    /// The wire code of the variant.
    pub fn code(self) -> (code: u8)
        ensures
            code == self.spec_code(),
    {
        match self {
            Status::ERROR => 0,
            Status::SUBMITTING => 1,
            Status::NOTTRADED => 2,
            Status::ALLTRADED => 3,
            Status::CANCELLED => 4,
            Status::CANCELFAILED => 5,
        }
    }

    /// The variant that `code` stands for, if it stands for one.
    pub fn from_code(code: u8) -> (decoded: Option<Status>)
        ensures
            decoded == Self::spec_from_code(code),
    {
        match code {
            0 => Some(Status::ERROR),
            1 => Some(Status::SUBMITTING),
            2 => Some(Status::NOTTRADED),
            3 => Some(Status::ALLTRADED),
            4 => Some(Status::CANCELLED),
            5 => Some(Status::CANCELFAILED),
            _ => None,
        }
    }

    /// The canonical upper-case name of the variant.
    pub fn name(self) -> (name: &'static str)
        ensures
            name@ == self.spec_name(),
    {
        match self {
            Status::ERROR => "ERROR",
            Status::SUBMITTING => "SUBMITTING",
            Status::NOTTRADED => "NOTTRADED",
            Status::ALLTRADED => "ALLTRADED",
            Status::CANCELLED => "CANCELLED",
            Status::CANCELFAILED => "CANCELFAILED",
        }
    }

    /// Codes round-trip: a variant comes back from its own code, a byte that
    /// decodes at all is the code of what it decodes to, and so no two
    /// variants share a code.
    pub proof fn lemma_code_round_trip(variant: Status, other: Status, code: u8)
        ensures
            Self::spec_from_code(variant.spec_code()) == Some(variant),
            Self::spec_from_code(code) == Some(variant) <==> variant.spec_code() == code,
            Self::spec_from_code(code) is None <==> forall|any: Status|
                #[trigger] any.spec_code() != code,
            variant.spec_code() == other.spec_code() ==> variant == other,
    {
        if let Some(found) = Self::spec_from_code(code) {
            assert(found.spec_code() == code);
        }
    }
}

/// How an order is to be executed.
#[derive(Clone, Copy, Debug, PartialEq, Eq, Hash, Structural)]
pub enum OrderType {
    /// At the stated price or better.
    LIMIT,
    /// At the best price available; the price field is ignored.
    MARKET,
    /// Triggered at the stated price.
    STOP,
    /// Fill what is possible at once and kill the rest.
    FAK,
    /// Fill everything at once or nothing.
    FOK,
}

impl OrderType {
    /// The wire code of the variant.
    pub open spec fn spec_code(self) -> u8 {
        match self {
            OrderType::LIMIT => 0,
            OrderType::MARKET => 1,
            OrderType::STOP => 2,
            OrderType::FAK => 3,
            OrderType::FOK => 4,
        }
    }

    /// The variant that `code` stands for; `None` for a byte that is the
    /// code of no variant.
    pub open spec fn spec_from_code(code: u8) -> Option<OrderType> {
        if code == 0 {
            Some(OrderType::LIMIT)
        } else if code == 1 {
            Some(OrderType::MARKET)
        } else if code == 2 {
            Some(OrderType::STOP)
        } else if code == 3 {
            Some(OrderType::FAK)
        } else if code == 4 {
            Some(OrderType::FOK)
        } else {
            None
        }
    }

    /// The canonical name of the variant.
    pub open spec fn spec_name(self) -> Seq<char> {
        match self {
            OrderType::LIMIT => "LIMIT"@,
            OrderType::MARKET => "MARKET"@,
            OrderType::STOP => "STOP"@,
            OrderType::FAK => "FAK"@,
            OrderType::FOK => "FOK"@,
        }
    }

    /// The wire code of the variant.
    pub fn code(self) -> (code: u8)
        ensures
            code == self.spec_code(),
    {
        match self {
            OrderType::LIMIT => 0,
            OrderType::MARKET => 1,
            OrderType::STOP => 2,
            OrderType::FAK => 3,
            OrderType::FOK => 4,
        }
    }

    /// The variant that `code` stands for, if it stands for one.
    pub fn from_code(code: u8) -> (decoded: Option<OrderType>)
        ensures
            decoded == Self::spec_from_code(code),
    {
        match code {
            0 => Some(OrderType::LIMIT),
            1 => Some(OrderType::MARKET),
            2 => Some(OrderType::STOP),
            3 => Some(OrderType::FAK),
            4 => Some(OrderType::FOK),
            _ => None,
        }
    }

    /// The canonical upper-case name of the variant.
    pub fn name(self) -> (name: &'static str)
        ensures
            name@ == self.spec_name(),
    {
        match self {
            OrderType::LIMIT => "LIMIT",
            OrderType::MARKET => "MARKET",
            OrderType::STOP => "STOP",
            OrderType::FAK => "FAK",
            OrderType::FOK => "FOK",
        }
    }

    /// Codes round-trip: a variant comes back from its own code, a byte that
    /// decodes at all is the code of what it decodes to, and so no two
    /// variants share a code.
    pub proof fn lemma_code_round_trip(variant: OrderType, other: OrderType, code: u8)
        ensures
            Self::spec_from_code(variant.spec_code()) == Some(variant),
            Self::spec_from_code(code) == Some(variant) <==> variant.spec_code() == code,
            Self::spec_from_code(code) is None <==> forall|any: OrderType|
                #[trigger] any.spec_code() != code,
            variant.spec_code() == other.spec_code() ==> variant == other,
    {
        if let Some(found) = Self::spec_from_code(code) {
            assert(found.spec_code() == code);
        }
    }
}

/// Venue on which an instrument trades.
#[derive(Clone, Copy, Debug, PartialEq, Eq, Hash, Structural)]
pub enum Exchange {
    /// Shanghai Futures Exchange.
    SHFE,
    /// China Financial Futures Exchange.
    CFFEX,
    /// Zhengzhou Commodity Exchange.
    CZCE,
    /// Dalian Commodity Exchange.
    DCE,
    /// Shanghai International Energy Exchange.
    INE,
    /// Commodity Exchange, New York.
    COMEX,
    /// Binance.
    BINANCE,
}

impl Exchange {
    /// The wire code of the variant.
    pub open spec fn spec_code(self) -> u8 {
        match self {
            Exchange::SHFE => 0,
            Exchange::CFFEX => 1,
            Exchange::CZCE => 2,
            Exchange::DCE => 3,
            Exchange::INE => 4,
            Exchange::COMEX => 5,
            Exchange::BINANCE => 6,
        }
    }

    /// The variant that `code` stands for; `None` for a byte that is the
    /// code of no variant.
    pub open spec fn spec_from_code(code: u8) -> Option<Exchange> {
        if code == 0 {
            Some(Exchange::SHFE)
        } else if code == 1 {
            Some(Exchange::CFFEX)
        } else if code == 2 {
            Some(Exchange::CZCE)
        } else if code == 3 {
            Some(Exchange::DCE)
        } else if code == 4 {
            Some(Exchange::INE)
        } else if code == 5 {
            Some(Exchange::COMEX)
        } else if code == 6 {
            Some(Exchange::BINANCE)
        } else {
            None
        }
    }

    /// The canonical name of the variant.
    pub open spec fn spec_name(self) -> Seq<char> {
        match self {
            Exchange::SHFE => "SHFE"@,
            Exchange::CFFEX => "CFFEX"@,
            Exchange::CZCE => "CZCE"@,
            Exchange::DCE => "DCE"@,
            Exchange::INE => "INE"@,
            Exchange::COMEX => "COMEX"@,
            Exchange::BINANCE => "BINANCE"@,
        }
    }

    /// The wire code of the variant.
    pub fn code(self) -> (code: u8)
        ensures
            code == self.spec_code(),
    {
        match self {
            Exchange::SHFE => 0,
            Exchange::CFFEX => 1,
            Exchange::CZCE => 2,
            Exchange::DCE => 3,
            Exchange::INE => 4,
            Exchange::COMEX => 5,
            Exchange::BINANCE => 6,
        }
    }

    /// The variant that `code` stands for, if it stands for one.
    pub fn from_code(code: u8) -> (decoded: Option<Exchange>)
        ensures
            decoded == Self::spec_from_code(code),
    {
        match code {
            0 => Some(Exchange::SHFE),
            1 => Some(Exchange::CFFEX),
            2 => Some(Exchange::CZCE),
            3 => Some(Exchange::DCE),
            4 => Some(Exchange::INE),
            5 => Some(Exchange::COMEX),
            6 => Some(Exchange::BINANCE),
            _ => None,
        }
    }

    /// The canonical upper-case name of the variant.
    pub fn name(self) -> (name: &'static str)
        ensures
            name@ == self.spec_name(),
    {
        match self {
            Exchange::SHFE => "SHFE",
            Exchange::CFFEX => "CFFEX",
            Exchange::CZCE => "CZCE",
            Exchange::DCE => "DCE",
            Exchange::INE => "INE",
            Exchange::COMEX => "COMEX",
            Exchange::BINANCE => "BINANCE",
        }
    }

    /// Codes round-trip: a variant comes back from its own code, a byte that
    /// decodes at all is the code of what it decodes to, and so no two
    /// variants share a code.
    pub proof fn lemma_code_round_trip(variant: Exchange, other: Exchange, code: u8)
        ensures
            Self::spec_from_code(variant.spec_code()) == Some(variant),
            Self::spec_from_code(code) == Some(variant) <==> variant.spec_code() == code,
            Self::spec_from_code(code) is None <==> forall|any: Exchange|
                #[trigger] any.spec_code() != code,
            variant.spec_code() == other.spec_code() ==> variant == other,
    {
        if let Some(found) = Self::spec_from_code(code) {
            assert(found.spec_code() == code);
        }
    }
}

impl Default for Exchange {
    /// The home venue.
    fn default() -> (venue: Exchange)
        ensures
            venue == Exchange::SHFE,
    {
        Exchange::SHFE
    }
}

} // verus!
