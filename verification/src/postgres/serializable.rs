use vstd::prelude::*;

verus! {

/// The trading platform of a trader package, stored by its integer code.
#[derive(Debug, Clone, Copy, PartialEq, Eq, Structural)]
pub enum TradingPlatformSerializable {
    MetaTrader4,
    MetaTrader5,
}

/// The broker of a trader package, stored by its integer code.
#[derive(Debug, Clone, Copy, PartialEq, Eq, Structural)]
pub enum BrokerSerializable {
    Welltrade,
}

impl TradingPlatformSerializable {
    /// The integer code of the platform: `MetaTrader4` is 0, `MetaTrader5` is 1.
    pub open spec fn code(self) -> i32 {
        match self {
            TradingPlatformSerializable::MetaTrader4 => 0,
            TradingPlatformSerializable::MetaTrader5 => 1,
        }
    }

    /// The platform that an integer code names, if any.
    pub open spec fn from_code(code: i32) -> Option<Self> {
        if code == 0 {
            Some(TradingPlatformSerializable::MetaTrader4)
        } else if code == 1 {
            Some(TradingPlatformSerializable::MetaTrader5)
        } else {
            None
        }
    }

    /// The platform of a code; a code that names none is outside the domain.
    pub fn from_i32(item: i32) -> (r: Self)
        requires
            Self::from_code(item) is Some,
        ensures
            Some(r) == Self::from_code(item),
            r.code() == item,
    {
        if item == 0 {
            TradingPlatformSerializable::MetaTrader4
        } else {
            TradingPlatformSerializable::MetaTrader5
        }
    }

    /// The platform of a code, or `None` where the code names none.
    pub fn try_from_i32(item: i32) -> (r: Option<Self>)
        ensures
            r == Self::from_code(item),
    {
        if item == 0 {
            Some(TradingPlatformSerializable::MetaTrader4)
        } else if item == 1 {
            Some(TradingPlatformSerializable::MetaTrader5)
        } else {
            None
        }
    }
}

impl From<TradingPlatformSerializable> for i32 {
    fn from(item: TradingPlatformSerializable) -> (r: i32) {
        match item {
            TradingPlatformSerializable::MetaTrader4 => 0,
            TradingPlatformSerializable::MetaTrader5 => 1,
        }
    }
}

impl vstd::std_specs::convert::FromSpecImpl<TradingPlatformSerializable> for i32 {
    open spec fn obeys_from_spec() -> bool {
        true
    }

    open spec fn from_spec(item: TradingPlatformSerializable) -> i32 {
        item.code()
    }
}

impl BrokerSerializable {
    /// The integer code of the broker: `Welltrade` is 0.
    pub open spec fn code(self) -> i32 {
        match self {
            BrokerSerializable::Welltrade => 0,
        }
    }

    /// The broker that an integer code names, if any.
    pub open spec fn from_code(code: i32) -> Option<Self> {
        if code == 0 {
            Some(BrokerSerializable::Welltrade)
        } else {
            None
        }
    }

    /// The broker of a code; a code that names none is outside the domain.
    pub fn from_i32(item: i32) -> (r: Self)
        requires
            Self::from_code(item) is Some,
        ensures
            Some(r) == Self::from_code(item),
            r.code() == item,
    {
        BrokerSerializable::Welltrade
    }

    /// The broker of a code, or `None` where the code names none.
    pub fn try_from_i32(item: i32) -> (r: Option<Self>)
        ensures
            r == Self::from_code(item),
    {
        if item == 0 {
            Some(BrokerSerializable::Welltrade)
        } else {
            None
        }
    }
}

impl From<BrokerSerializable> for i32 {
    fn from(item: BrokerSerializable) -> (r: i32) {
        match item {
            BrokerSerializable::Welltrade => 0,
        }
    }
}

impl vstd::std_specs::convert::FromSpecImpl<BrokerSerializable> for i32 {
    open spec fn obeys_from_spec() -> bool {
        true
    }

    open spec fn from_spec(item: BrokerSerializable) -> i32 {
        item.code()
    }
}

/// A platform's code names that platform again, and a code that names a
/// platform is that platform's code.
pub proof fn lemma_trading_platform_code_round_trip(platform: TradingPlatformSerializable, code: i32)
    ensures
        TradingPlatformSerializable::from_code(platform.code()) == Some(platform),
        TradingPlatformSerializable::from_code(code) matches Some(p) ==> p.code() == code,
{
}

/// A broker's code names that broker again, and a code that names a broker
/// is that broker's code.
pub proof fn lemma_broker_code_round_trip(broker: BrokerSerializable, code: i32)
    ensures
        BrokerSerializable::from_code(broker.code()) == Some(broker),
        BrokerSerializable::from_code(code) matches Some(b) ==> b.code() == code,
{
}

} // verus!
