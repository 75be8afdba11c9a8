//! The bind-parameter ledger: the ordered, append-only list of the values
//! that travel with a statement, each at a 1-based position.

use vstd::prelude::*;

verus! {

/// The SQL type under which a value is bound.
#[derive(Clone, Copy, Debug, PartialEq, Eq, Structural)]
pub enum BindType {
    /// `integer`
    Integer,
    /// `text`
    Text,
    /// `text[]`, nullable
    TextArray,
}

/// One value to bind, together with its type.
#[derive(Clone, Debug, PartialEq, Eq)]
pub enum BindValue {
    Integer(i64),
    Text(String),
    TextArray(Vec<String>),
    /// The null of type `text[]`: stands in a position whose filter is absent.
    NullTextArray,
}

/// The mathematical value of a [`BindValue`].
pub enum BindValueView {
    Integer(i64),
    Text(Seq<char>),
    TextArray(Seq<Seq<char>>),
    NullTextArray,
}

impl BindValueView {
    /// The type under which the value is bound.
    pub open spec fn bind_type(self) -> BindType {
        match self {
            BindValueView::Integer(_) => BindType::Integer,
            BindValueView::Text(_) => BindType::Text,
            BindValueView::TextArray(_) => BindType::TextArray,
            BindValueView::NullTextArray => BindType::TextArray,
        }
    }
}

impl View for BindValue {
    type V = BindValueView;

    open spec fn view(&self) -> BindValueView {
        match self {
            BindValue::Integer(n) => BindValueView::Integer(*n),
            BindValue::Text(s) => BindValueView::Text(s@),
            BindValue::TextArray(v) => BindValueView::TextArray(v.deep_view()),
            BindValue::NullTextArray => BindValueView::NullTextArray,
        }
    }
}

impl DeepView for BindValue {
    type V = BindValueView;

    open spec fn deep_view(&self) -> BindValueView {
        self@
    }
}

impl BindValue {
    /// The type under which this value is bound.
    pub fn bind_type(&self) -> (t: BindType)
        ensures
            t == self@.bind_type(),
    {
        match self {
            BindValue::Integer(_) => BindType::Integer,
            BindValue::Text(_) => BindType::Text,
            BindValue::TextArray(_) => BindType::TextArray,
            BindValue::NullTextArray => BindType::TextArray,
        }
    }
}

/// The ledger of one compilation. It only grows: a reservation appends one
/// value and tells its position, and nothing is ever removed or moved.
pub struct BindLedger {
    slots: Vec<BindValue>,
}

impl View for BindLedger {
    type V = Seq<BindValueView>;

    /// The reserved values, in the order of reservation.
    closed spec fn view(&self) -> Seq<BindValueView> {
        self.slots.deep_view()
    }
}

impl BindLedger {
    /// A ledger with nothing reserved.
    pub fn new() -> (ledger: BindLedger)
        ensures
            ledger@ == Seq::<BindValueView>::empty(),
    {
        let ledger = BindLedger { slots: Vec::new() };
        assert(ledger@ =~= Seq::<BindValueView>::empty());
        ledger
    }

    /// Appends `value` and returns its 1-based position: the Nth
    /// reservation on a ledger returns N.
    pub fn reserve(&mut self, value: BindValue) -> (index: usize)
        ensures
            final(self)@ == old(self)@.push(value@),
            index == old(self)@.len() + 1,
    {
        self.slots.push(value);
        assert(self@ =~= old(self)@.push(value@));
        self.slots.len()
    }

    /// The number of reservations made so far.
    pub fn len(&self) -> (n: usize)
        ensures
            n == self@.len(),
    {
        self.slots.len()
    }

    /// The reserved values in reservation order, for binding.
    pub fn values(self) -> (values: Vec<BindValue>)
        ensures
            values.deep_view() == self@,
    {
        self.slots
    }
}

} // verus!
