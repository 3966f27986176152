//! Market-depth snapshots and their flattened, tabular form.
//!
//! A snapshot shows the best five levels of each side of a book at one
//! instant. Any type can stand for one by implementing
//! [`TickDataStructure`]; the trait derives from its accessors a fixed schema
//! of 29 columns and, for each snapshot, the row of values under them.

use vstd::prelude::*;
use crate::clock::{digit, Time};

verus! {

/// Levels on each side of the book, best first.
pub const DEPTH: usize = 5;

/// Columns of the flattened row.
pub const COLUMNS: usize = 29;

/// A field of the flattened row. A per-level field carries its level,
/// `0` for the best.
#[derive(Clone, Copy, Debug, PartialEq, Eq, Structural)]
pub enum Field {
    /// The last traded price.
    LastPrice,
    /// The mid price.
    MidPrice,
    /// The total traded volume.
    Volume,
    /// The total traded amount.
    Turnover,
    /// The volume of buyer-initiated trades.
    BuyVolume,
    /// The volume of seller-initiated trades.
    SellVolume,
    /// The open interest.
    OpenInterest,
    /// The time of the snapshot, in seconds since the epoch.
    SnapTime,
    /// The millisecond within that second.
    Ms,
    /// The ask price at a level.
    AskPrice(usize),
    /// The ask volume at a level.
    AskVolume(usize),
    /// The bid price at a level.
    BidPrice(usize),
    /// The bid volume at a level.
    BidVolume(usize),
}

/// A value of the flattened row, as the snapshot holds it. Prices and
/// amounts are already in the row's number type; volumes and the two time
/// fields are still to be converted into it.
#[derive(Clone, Copy, Debug, PartialEq)]
pub enum Cell<T, P> {
    /// A price or an amount, handed through untouched.
    Price(P),
    /// A volume in the snapshot's own volume type.
    Volume(T),
    /// A whole number: seconds or milliseconds.
    Count(u64),
}

impl Field {
    /// Whether the field exists: a per-level field needs a level of the book.
    pub open spec fn valid(self) -> bool {
        match self {
            Field::AskPrice(level) => level < DEPTH,
            Field::AskVolume(level) => level < DEPTH,
            Field::BidPrice(level) => level < DEPTH,
            Field::BidVolume(level) => level < DEPTH,
            _ => true,
        }
    }

    /// The column of the field.
    pub open spec fn index(self) -> int {
        match self {
            Field::LastPrice => 0,
            Field::MidPrice => 1,
            Field::Volume => 2,
            Field::Turnover => 3,
            Field::BuyVolume => 4,
            Field::SellVolume => 5,
            Field::OpenInterest => 6,
            Field::SnapTime => 7,
            Field::Ms => 8,
            Field::AskPrice(level) => 9 + level,
            Field::AskVolume(level) => 14 + level,
            Field::BidPrice(level) => 19 + level,
            Field::BidVolume(level) => 24 + level,
        }
    }

    /// The name of the field's column. Levels are numbered from one.
    pub open spec fn name(self) -> Seq<char> {
        match self {
            Field::LastPrice => "last_price"@,
            Field::MidPrice => "mid_price"@,
            Field::Volume => "volume"@,
            Field::Turnover => "turnover"@,
            Field::BuyVolume => "buy_volume"@,
            Field::SellVolume => "sell_volume"@,
            Field::OpenInterest => "open_interest"@,
            Field::SnapTime => "snap_time"@,
            Field::Ms => "ms"@,
            Field::AskPrice(level) => "ask_price_"@.push(digit((level + 1) as nat)),
            Field::AskVolume(level) => "ask_volume_"@.push(digit((level + 1) as nat)),
            Field::BidPrice(level) => "bid_price_"@.push(digit((level + 1) as nat)),
            Field::BidVolume(level) => "bid_volume_"@.push(digit((level + 1) as nat)),
        }
    }
}

/// The field in column `index`: nine fields of the whole snapshot, then
/// ask prices, ask volumes, bid prices and bid volumes, five levels each.
pub open spec fn field_at(index: int) -> Field {
    if index == 0 {
        Field::LastPrice
    } else if index == 1 {
        Field::MidPrice
    } else if index == 2 {
        Field::Volume
    } else if index == 3 {
        Field::Turnover
    } else if index == 4 {
        Field::BuyVolume
    } else if index == 5 {
        Field::SellVolume
    } else if index == 6 {
        Field::OpenInterest
    } else if index == 7 {
        Field::SnapTime
    } else if index == 8 {
        Field::Ms
    } else if index < 14 {
        Field::AskPrice((index - 9) as usize)
    } else if index < 19 {
        Field::AskVolume((index - 14) as usize)
    } else if index < 24 {
        Field::BidPrice((index - 19) as usize)
    } else {
        Field::BidVolume((index - 24) as usize)
    }
}

/// Every column holds one field, and every field has one column.
pub proof fn lemma_schema_bijective(index: int, field: Field)
    ensures
        0 <= index < COLUMNS ==> field_at(index).valid() && field_at(index).index() == index,
        field.valid() ==> 0 <= field.index() < COLUMNS && field_at(field.index()) == field,
{
}

/// What a type must offer to stand for a depth snapshot.
///
/// `T` is the type of volumes, whole lots or fractional sizes; `P` is the
/// number type of prices and amounts, and of the flattened row once its
/// cells are converted. Levels run from `0`, the best, to `DEPTH - 1`.
pub trait TickDataStructure<T, P> {
    /// Last traded price.
    fn last_price(&self) -> P;

    /// Total traded volume.
    fn volume(&self) -> T;

    /// Open interest.
    fn open_interest(&self) -> T;

    /// Bid price at a level.
    fn bid_price(&self, index: usize) -> P
        requires
            index < DEPTH,
    ;

    /// Ask price at a level.
    fn ask_price(&self, index: usize) -> P
        requires
            index < DEPTH,
    ;

    /// Bid volume at a level.
    fn bid_volume(&self, index: usize) -> T
        requires
            index < DEPTH,
    ;

    /// Ask volume at a level.
    fn ask_volume(&self, index: usize) -> T
        requires
            index < DEPTH,
    ;

    /// Mid price.
    fn mid_price(&self) -> P;

    /// Total traded amount.
    fn turnover(&self) -> P;

    /// Hour, minute and second of the snapshot, counted from the start of
    /// its day.
    fn hms(&self, base_time: u32) -> (u32, u32, u32);

    /// The snapshot's time of day as a timestamp on the given day.
    fn timestamp(&self, base_time: u64) -> u64;

    /// Time of the snapshot, in seconds since the epoch.
    fn snap_time(&self) -> u64;

    /// A value that a backtest may attach to the snapshot. It is no part of
    /// the schema: neither `columns` nor `display` reads it.
    fn signal(&self) -> (attached: P) where P: Default
        default_ensures
            call_ensures(P::default, (), attached),
    {
        P::default()
    }

    /// A date that a backtest may attach to the snapshot; empty unless an
    /// implementation provides one. It is no part of the schema.
    fn datetime(&self) -> (attached: String)
        default_ensures
            attached@ == Seq::<char>::empty(),
    {
        String::new()
    }

    /// Millisecond within the second of `snap_time`.
    fn ms(&self) -> u16;

    /// Numeric code of the instrument.
    fn code(&self) -> u64;

    /// Volume resting on the ask side.
    fn ask_volume_all(&self) -> T;

    /// Volume resting on the bid side.
    fn bid_volume_all(&self) -> T;

    /// Volume of buyer-initiated trades.
    fn buy_volume(&self) -> T;

    /// Volume of seller-initiated trades.
    fn sell_volume(&self) -> T;

    /// The clock reading of the snapshot: `snap_time` and `ms` together.
    fn time(&self) -> (reading: Time)
        ensures
            call_ensures(Self::snap_time, (self,), reading.timestamp),
            call_ensures(Self::ms, (self,), reading.ms),
    {
        Time { timestamp: self.snap_time(), ms: self.ms() }
    }

    /// The schema: the name of each column, in order. It is the same for
    /// every snapshot of every implementation: an implementation leaves this
    /// method as it is, and one that replaced it would owe the same names.
    fn columns(&self) -> (names: [&'static str; 29])
        ensures
            names@.len() == COLUMNS,
            forall|i: int| 0 <= i < COLUMNS ==> (#[trigger] names[i])@ == field_at(i).name(),
    {
        let names = [
            "last_price",
            "mid_price",
            "volume",
            "turnover",
            "buy_volume",
            "sell_volume",
            "open_interest",
            "snap_time",
            "ms",
            "ask_price_1",
            "ask_price_2",
            "ask_price_3",
            "ask_price_4",
            "ask_price_5",
            "ask_volume_1",
            "ask_volume_2",
            "ask_volume_3",
            "ask_volume_4",
            "ask_volume_5",
            "bid_price_1",
            "bid_price_2",
            "bid_price_3",
            "bid_price_4",
            "bid_price_5",
            "bid_volume_1",
            "bid_volume_2",
            "bid_volume_3",
            "bid_volume_4",
            "bid_volume_5",
        ];
        proof {
            lemma_level_names();
            assert forall|i: int| 0 <= i < COLUMNS implies (#[trigger] names[i])@ == field_at(
                i,
            ).name() by {}
        }
        names
    }

    /// The row of the snapshot: in the column of each field a value that the
    /// field's accessor returns for this snapshot. Prices and amounts go
    /// through untouched, volumes stay in their own type, and the two time
    /// fields become counts. An implementation leaves this method as it is.
    fn display(&self) -> (row: [Cell<T, P>; 29])
        ensures
            row@.len() == COLUMNS,
            row[Field::LastPrice.index()] matches Cell::Price(p) && call_ensures(
                Self::last_price,
                (self,),
                p,
            ),
            row[Field::MidPrice.index()] matches Cell::Price(p) && call_ensures(
                Self::mid_price,
                (self,),
                p,
            ),
            row[Field::Volume.index()] matches Cell::Volume(v) && call_ensures(
                Self::volume,
                (self,),
                v,
            ),
            row[Field::Turnover.index()] matches Cell::Price(p) && call_ensures(
                Self::turnover,
                (self,),
                p,
            ),
            row[Field::BuyVolume.index()] matches Cell::Volume(v) && call_ensures(
                Self::buy_volume,
                (self,),
                v,
            ),
            row[Field::SellVolume.index()] matches Cell::Volume(v) && call_ensures(
                Self::sell_volume,
                (self,),
                v,
            ),
            row[Field::OpenInterest.index()] matches Cell::Volume(v) && call_ensures(
                Self::open_interest,
                (self,),
                v,
            ),
            row[Field::SnapTime.index()] matches Cell::Count(n) && call_ensures(
                Self::snap_time,
                (self,),
                n,
            ),
            row[Field::Ms.index()] matches Cell::Count(n) && n <= u16::MAX && call_ensures(
                Self::ms,
                (self,),
                n as u16,
            ),
            forall|level: usize|
                level < DEPTH ==> ((#[trigger] row[Field::AskPrice(level).index()]) matches Cell::Price(p)
                    && call_ensures(Self::ask_price, (self, level), p)),
            forall|level: usize|
                level < DEPTH ==> ((#[trigger] row[Field::AskVolume(level).index()]) matches Cell::Volume(v)
                    && call_ensures(Self::ask_volume, (self, level), v)),
            forall|level: usize|
                level < DEPTH ==> ((#[trigger] row[Field::BidPrice(level).index()]) matches Cell::Price(p)
                    && call_ensures(Self::bid_price, (self, level), p)),
            forall|level: usize|
                level < DEPTH ==> ((#[trigger] row[Field::BidVolume(level).index()]) matches Cell::Volume(v)
                    && call_ensures(Self::bid_volume, (self, level), v)),
    {
        let ms = self.ms();
        let row = [
            Cell::Price(self.last_price()),
            Cell::Price(self.mid_price()),
            Cell::Volume(self.volume()),
            Cell::Price(self.turnover()),
            Cell::Volume(self.buy_volume()),
            Cell::Volume(self.sell_volume()),
            Cell::Volume(self.open_interest()),
            Cell::Count(self.snap_time()),
            Cell::Count(ms as u64),
            Cell::Price(self.ask_price(0)),
            Cell::Price(self.ask_price(1)),
            Cell::Price(self.ask_price(2)),
            Cell::Price(self.ask_price(3)),
            Cell::Price(self.ask_price(4)),
            Cell::Volume(self.ask_volume(0)),
            Cell::Volume(self.ask_volume(1)),
            Cell::Volume(self.ask_volume(2)),
            Cell::Volume(self.ask_volume(3)),
            Cell::Volume(self.ask_volume(4)),
            Cell::Price(self.bid_price(0)),
            Cell::Price(self.bid_price(1)),
            Cell::Price(self.bid_price(2)),
            Cell::Price(self.bid_price(3)),
            Cell::Price(self.bid_price(4)),
            Cell::Volume(self.bid_volume(0)),
            Cell::Volume(self.bid_volume(1)),
            Cell::Volume(self.bid_volume(2)),
            Cell::Volume(self.bid_volume(3)),
            Cell::Volume(self.bid_volume(4)),
        ];
        row
    }
}

/// The names of the per-level columns, spelled out.
proof fn lemma_level_names()
    ensures
        "ask_price_1"@ == Field::AskPrice(0).name(),
        "ask_price_2"@ == Field::AskPrice(1).name(),
        "ask_price_3"@ == Field::AskPrice(2).name(),
        "ask_price_4"@ == Field::AskPrice(3).name(),
        "ask_price_5"@ == Field::AskPrice(4).name(),
        "ask_volume_1"@ == Field::AskVolume(0).name(),
        "ask_volume_2"@ == Field::AskVolume(1).name(),
        "ask_volume_3"@ == Field::AskVolume(2).name(),
        "ask_volume_4"@ == Field::AskVolume(3).name(),
        "ask_volume_5"@ == Field::AskVolume(4).name(),
        "bid_price_1"@ == Field::BidPrice(0).name(),
        "bid_price_2"@ == Field::BidPrice(1).name(),
        "bid_price_3"@ == Field::BidPrice(2).name(),
        "bid_price_4"@ == Field::BidPrice(3).name(),
        "bid_price_5"@ == Field::BidPrice(4).name(),
        "bid_volume_1"@ == Field::BidVolume(0).name(),
        "bid_volume_2"@ == Field::BidVolume(1).name(),
        "bid_volume_3"@ == Field::BidVolume(2).name(),
        "bid_volume_4"@ == Field::BidVolume(3).name(),
        "bid_volume_5"@ == Field::BidVolume(4).name(),
{
    reveal_strlit("ask_price_");
    reveal_strlit("ask_price_1");
    reveal_strlit("ask_price_2");
    reveal_strlit("ask_price_3");
    reveal_strlit("ask_price_4");
    reveal_strlit("ask_price_5");
    reveal_strlit("ask_volume_");
    reveal_strlit("ask_volume_1");
    reveal_strlit("ask_volume_2");
    reveal_strlit("ask_volume_3");
    reveal_strlit("ask_volume_4");
    reveal_strlit("ask_volume_5");
    reveal_strlit("bid_price_");
    reveal_strlit("bid_price_1");
    reveal_strlit("bid_price_2");
    reveal_strlit("bid_price_3");
    reveal_strlit("bid_price_4");
    reveal_strlit("bid_price_5");
    reveal_strlit("bid_volume_");
    reveal_strlit("bid_volume_1");
    reveal_strlit("bid_volume_2");
    reveal_strlit("bid_volume_3");
    reveal_strlit("bid_volume_4");
    reveal_strlit("bid_volume_5");
    assert("ask_price_1"@ =~= "ask_price_"@.push(digit(1)));
    assert("ask_price_2"@ =~= "ask_price_"@.push(digit(2)));
    assert("ask_price_3"@ =~= "ask_price_"@.push(digit(3)));
    assert("ask_price_4"@ =~= "ask_price_"@.push(digit(4)));
    assert("ask_price_5"@ =~= "ask_price_"@.push(digit(5)));
    assert("ask_volume_1"@ =~= "ask_volume_"@.push(digit(1)));
    assert("ask_volume_2"@ =~= "ask_volume_"@.push(digit(2)));
    assert("ask_volume_3"@ =~= "ask_volume_"@.push(digit(3)));
    assert("ask_volume_4"@ =~= "ask_volume_"@.push(digit(4)));
    assert("ask_volume_5"@ =~= "ask_volume_"@.push(digit(5)));
    assert("bid_price_1"@ =~= "bid_price_"@.push(digit(1)));
    assert("bid_price_2"@ =~= "bid_price_"@.push(digit(2)));
    assert("bid_price_3"@ =~= "bid_price_"@.push(digit(3)));
    assert("bid_price_4"@ =~= "bid_price_"@.push(digit(4)));
    assert("bid_price_5"@ =~= "bid_price_"@.push(digit(5)));
    assert("bid_volume_1"@ =~= "bid_volume_"@.push(digit(1)));
    assert("bid_volume_2"@ =~= "bid_volume_"@.push(digit(2)));
    assert("bid_volume_3"@ =~= "bid_volume_"@.push(digit(3)));
    assert("bid_volume_4"@ =~= "bid_volume_"@.push(digit(4)));
    assert("bid_volume_5"@ =~= "bid_volume_"@.push(digit(5)));
}

} // verus!
