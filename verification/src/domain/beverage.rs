//! The beverage catalogue.
//!
//! Prices are in cents. A beverage has a base price, which is the price of a
//! medium cup; the size scales it. New beverages are added by implementing
//! [`Beverage`]; nothing else in the crate needs to change.

use crate::text::{decimal, decimal_text, labelled};
use vstd::prelude::*;
use vstd::string::StringExecFns;

verus! {

/// Cup sizes.
#[derive(Clone, Copy, Debug, PartialEq, Eq, Structural)]
pub enum Size {
    Small,
    Medium,
    Large,
}

impl Size {
    /// The share of the base price that a cup of this size costs, in
    /// percent.
    pub open spec fn percent(self) -> nat {
        match self {
            Size::Small => 80,
            Size::Medium => 100,
            Size::Large => 120,
        }
    }

    /// The name of the size.
    pub open spec fn label(self) -> Seq<char> {
        match self {
            Size::Small => "Small"@,
            Size::Medium => "Medium"@,
            Size::Large => "Large"@,
        }
    }

    /// The share of the base price that a cup of this size costs, in
    /// percent: 80 for small, 100 for medium, 120 for large.
    pub fn price_multiplier(&self) -> (percent: u32)
        ensures
            percent == self.percent(),
    {
        match self {
            Size::Small => 80,
            Size::Medium => 100,
            Size::Large => 120,
        }
    }

    /// The name of the size as text.
    pub fn name(&self) -> (name: &'static str)
        ensures
            name@ == self.label(),
    {
        match self {
            Size::Small => "Small",
            Size::Medium => "Medium",
            Size::Large => "Large",
        }
    }
}

/// The largest base price in cents for which a cup of any size has a price
/// that fits in 32 bits.
pub const MAX_BASE_PRICE: u32 = 3_579_139_412;

/// The price in cents of a cup of the given size of a beverage with the
/// given base price: the base price scaled by the size, rounded down.
pub open spec fn cup_price(base_cents: nat, size: Size) -> nat {
    match size {
        Size::Small => base_cents * 80 / 100,
        Size::Medium => base_cents,
        Size::Large => base_cents * 120 / 100,
    }
}

/// The price of a cup is the base price times the
/// [percentage](Size::percent) of the size, divided by one hundred and
/// rounded down.
pub proof fn cup_price_is_percentage(base_cents: nat, size: Size)
    ensures
        cup_price(base_cents, size) == base_cents * size.percent() / 100,
{
    assert(base_cents * 100 / 100 == base_cents);
}

/// A name followed by a size in brackets, such as `Coffee (Medium)`.
pub open spec fn cup_description(name: Seq<char>, size: Size) -> Seq<char> {
    name + " ("@ + size.label() + ")"@
}

/// Something the shop sells by the cup.
///
/// A beverage can be priced if its base price is at most
/// [`MAX_BASE_PRICE`]; the two methods that compute prices ask for that, and
/// [`is_priceable`](Beverage::is_priceable) tells whether it holds.
pub trait Beverage {
    /// The name, as [`name`](Beverage::name) returns it.
    spec fn name_view(&self) -> Seq<char>;

    /// The price of a medium cup in cents, as a mathematical integer.
    spec fn base_cents(&self) -> nat;

    /// The cup size, as [`size`](Beverage::size) returns it.
    spec fn size_view(&self) -> Size;

    /// The name of the beverage.
    fn name(&self) -> (name: String)
        ensures
            name@ == self.name_view(),
    ;

    /// Whether the beverage can be priced: whether its base price is at most
    /// [`MAX_BASE_PRICE`].
    fn is_priceable(&self) -> (yes: bool)
        ensures
            yes == (self.base_cents() <= MAX_BASE_PRICE),
    ;

    /// The price of a medium cup in cents.
    fn base_price(&self) -> (cents: u32)
        requires
            self.base_cents() <= MAX_BASE_PRICE,
        ensures
            cents == self.base_cents(),
    ;

    /// The cup size.
    fn size(&self) -> (size: Size)
        ensures
            size == self.size_view(),
    ;

    /// The price of this cup in cents: the base price scaled by the size,
    /// rounded down.
    fn price(&self) -> (cents: u32)
        requires
            self.base_cents() <= MAX_BASE_PRICE,
        ensures
            cents == cup_price(self.base_cents(), self.size_view()),
    {
        let base: u64 = self.base_price() as u64;
        let percent: u64 = self.size().price_multiplier() as u64;
        assert(base * percent <= 3_579_139_412 * 120) by (nonlinear_arith)
            requires
                base <= 3_579_139_412,
                percent <= 120,
        ;
        proof {
            match self.size_view() {
                Size::Small => {
                    assert(base * percent == base * 80) by (nonlinear_arith)
                        requires
                            percent == 80,
                    ;
                },
                Size::Medium => {
                    assert(base * percent / 100 == base) by (nonlinear_arith)
                        requires
                            percent == 100,
                    ;
                },
                Size::Large => {
                    assert(base * percent == base * 120) by (nonlinear_arith)
                        requires
                            percent == 120,
                    ;
                },
            }
        }
        let scaled: u64 = base * percent / 100;
        scaled as u32
    }

    /// The name followed by the size in brackets, such as `Coffee (Medium)`.
    fn description(&self) -> (text: String)
        ensures
            text@ == cup_description(self.name_view(), self.size_view()),
    {
        let mut text = self.name();
        text.append(" (");
        text.append(self.size().name());
        text.append(")");
        text
    }
}

/// Coffee, optionally with extra shots of espresso.
#[derive(Clone, Copy, Debug)]
pub struct Coffee {
    pub size: Size,
    pub extra_shots: u8,
}

impl Beverage for Coffee {
    open spec fn name_view(&self) -> Seq<char> {
        if self.extra_shots == 0 {
            "Coffee"@
        } else {
            "Coffee (+"@ + decimal(self.extra_shots as nat) + " shot"@ + (if self.extra_shots > 1 {
                "s"@
            } else {
                ""@
            }) + ")"@
        }
    }

    open spec fn base_cents(&self) -> nat {
        (350 + 75 * self.extra_shots) as nat
    }

    open spec fn size_view(&self) -> Size {
        self.size
    }

    fn name(&self) -> (name: String) {
        if self.extra_shots > 0 {
            let mut name = String::from_str("Coffee (+");
            let shots = decimal_text(self.extra_shots as u128);
            name.append(shots.as_str());
            name.append(" shot");
            if self.extra_shots > 1 {
                name.append("s");
            } else {
                name.append("");
            }
            name.append(")");
            assert(name@ =~= self.name_view());
            name
        } else {
            String::from_str("Coffee")
        }
    }

    fn is_priceable(&self) -> (yes: bool) {
        true
    }

    fn base_price(&self) -> (cents: u32) {
        350 + 75 * (self.extra_shots as u32)
    }

    fn size(&self) -> (size: Size) {
        self.size
    }
}

/// Tea of some variety, such as green, black or herbal.
#[derive(Debug)]
pub struct Tea {
    pub size: Size,
    pub variety: String,
}

impl Beverage for Tea {
    open spec fn name_view(&self) -> Seq<char> {
        self.variety@ + " Tea"@
    }

    open spec fn base_cents(&self) -> nat {
        250
    }

    open spec fn size_view(&self) -> Size {
        self.size
    }

    fn name(&self) -> (name: String) {
        labelled(self.variety.as_str(), " Tea")
    }

    fn is_priceable(&self) -> (yes: bool) {
        true
    }

    fn base_price(&self) -> (cents: u32) {
        250
    }

    fn size(&self) -> (size: Size) {
        self.size
    }
}

impl Clone for Tea {
    fn clone(&self) -> (copy: Self)
        ensures
            copy == *self,
    {
        Tea { size: self.size, variety: self.variety.clone() }
    }
}

/// The texts of `parts`, with `separator` between each two neighbours.
pub open spec fn joined(parts: Seq<String>, separator: Seq<char>) -> Seq<char>
    decreases parts.len(),
{
    if parts.len() == 0 {
        Seq::empty()
    } else if parts.len() == 1 {
        parts[0]@
    } else {
        joined(parts.drop_last(), separator) + separator + parts.last()@
    }
}

/// Joins `parts` with `separator` between each two neighbours.
pub fn join(parts: &Vec<String>, separator: &str) -> (text: String)
    ensures
        text@ == joined(parts@, separator@),
{
    let mut text = String::new();
    let mut i: usize = 0;
    while i < parts.len()
        invariant
            i <= parts.len(),
            text@ == joined(parts@.take(i as int), separator@),
        decreases parts.len() - i,
    {
        if i > 0 {
            text.append(separator);
        }
        text.append(parts[i].as_str());
        proof {
            let seen = parts@.take(i + 1);
            assert(seen.drop_last() =~= parts@.take(i as int));
            assert(seen.last() == parts@[i as int]);
            assert(text@ =~= joined(seen, separator@));
        }
        i += 1;
    }
    assert(parts@.take(parts.len() as int) =~= parts@);
    text
}

/// The largest number of fruits for which a smoothie can be priced.
pub const MAX_FRUITS: usize = 71_582_779;

/// A smoothie blended from one or more fruits.
#[derive(Debug)]
pub struct Smoothie {
    pub size: Size,
    pub fruits: Vec<String>,
}

impl Smoothie {
    /// How many fruits are charged on top of the base: every fruit after the
    /// first.
    pub open spec fn extra_fruits(&self) -> nat {
        if self.fruits@.len() <= 1 {
            0
        } else {
            (self.fruits@.len() - 1) as nat
        }
    }
}

impl Clone for Smoothie {
    fn clone(&self) -> (copy: Self)
        ensures
            copy.size == self.size,
            copy.fruits@ == self.fruits@,
    {
        let mut fruits: Vec<String> = Vec::new();
        let mut i: usize = 0;
        while i < self.fruits.len()
            invariant
                i <= self.fruits.len(),
                fruits@ == self.fruits@.take(i as int),
            decreases self.fruits.len() - i,
        {
            fruits.push(self.fruits[i].clone());
            assert(self.fruits@.take(i + 1) =~= self.fruits@.take(i as int).push(
                self.fruits@[i as int],
            ));
            i += 1;
        }
        assert(self.fruits@.take(self.fruits.len() as int) =~= self.fruits@);
        Smoothie { size: self.size, fruits }
    }
}

impl Beverage for Smoothie {
    open spec fn name_view(&self) -> Seq<char> {
        "Smoothie ("@ + joined(self.fruits@, ", "@) + ")"@
    }

    open spec fn base_cents(&self) -> nat {
        500 + 50 * self.extra_fruits()
    }

    open spec fn size_view(&self) -> Size {
        self.size
    }

    fn name(&self) -> (name: String) {
        let mut name = String::from_str("Smoothie (");
        let fruits = join(&self.fruits, ", ");
        name.append(fruits.as_str());
        name.append(")");
        name
    }

    fn is_priceable(&self) -> (yes: bool) {
        self.fruits.len() <= MAX_FRUITS
    }

    fn base_price(&self) -> (cents: u32) {
        let extra: usize = if self.fruits.len() <= 1 {
            0
        } else {
            self.fruits.len() - 1
        };
        500 + 50 * (extra as u32)
    }

    fn size(&self) -> (size: Size) {
        self.size
    }
}

} // verus!
