use vstd::prelude::*;

verus! {

/// One of the six route categories: the flight is a stopover or direct, and
/// the larger city is as big as, twice or three times the smaller one.
#[derive(Clone, Copy, PartialEq, Eq, Debug, Structural)]
pub enum Scenario {
    StopoverSame,
    DirectSame,
    StopoverTwice,
    DirectTwice,
    StopoverThrice,
    DirectThrice,
}

impl Scenario {
    /// The six scenarios in the order in which the form cycles through them.
    pub open spec fn all_spec() -> Seq<Scenario> {
        seq![
            Scenario::StopoverSame,
            Scenario::DirectSame,
            Scenario::StopoverTwice,
            Scenario::DirectTwice,
            Scenario::StopoverThrice,
            Scenario::DirectThrice,
        ]
    }

    /// Whether the route is flown without a stopover.
    pub open spec fn direct(self) -> bool {
        self is DirectSame || self is DirectTwice || self is DirectThrice
    }

    /// How many times the larger city outweighs the smaller one: 1, 2 or 3.
    pub open spec fn ratio(self) -> int {
        match self {
            Scenario::StopoverSame | Scenario::DirectSame => 1,
            Scenario::StopoverTwice | Scenario::DirectTwice => 2,
            Scenario::StopoverThrice | Scenario::DirectThrice => 3,
        }
    }

    /// The text shown for the scenario in the selector.
    pub open spec fn label(self) -> Seq<char> {
        match self {
            Scenario::StopoverSame => "Stopover (Both Cities Same Size)"@,
            Scenario::DirectSame => "Direct (Both Cities Same Size)"@,
            Scenario::StopoverTwice => "Stopover (One City Twice as Big)"@,
            Scenario::DirectTwice => "Direct (One City Twice as Big)"@,
            Scenario::StopoverThrice => "Stopover (One City 3x Bigger)"@,
            Scenario::DirectThrice => "Direct (One City 3x Bigger)"@,
        }
    }

    /// The text shown for the scenario in the selector.
    pub fn to_str(&self) -> (text: &'static str)
        ensures
            text@ == self.label(),
    {
        match self {
            Scenario::StopoverSame => "Stopover (Both Cities Same Size)",
            Scenario::DirectSame => "Direct (Both Cities Same Size)",
            Scenario::StopoverTwice => "Stopover (One City Twice as Big)",
            Scenario::DirectTwice => "Direct (One City Twice as Big)",
            Scenario::StopoverThrice => "Stopover (One City 3x Bigger)",
            Scenario::DirectThrice => "Direct (One City 3x Bigger)",
        }
    }

    /// The six scenarios in the order in which the form cycles through them.
    pub fn all() -> (list: Vec<Scenario>)
        ensures
            list@ == Scenario::all_spec(),
    {
        let list = vec![
            Scenario::StopoverSame,
            Scenario::DirectSame,
            Scenario::StopoverTwice,
            Scenario::DirectTwice,
            Scenario::StopoverThrice,
            Scenario::DirectThrice,
        ];
        assert(list@ =~= Scenario::all_spec());
        list
    }

    /// Whether the route is flown without a stopover.
    pub fn is_direct(&self) -> (d: bool)
        ensures
            d == self.direct(),
    {
        match self {
            Scenario::DirectSame | Scenario::DirectTwice | Scenario::DirectThrice => true,
            _ => false,
        }
    }

    /// How many times the larger city outweighs the smaller one: 1, 2 or 3.
    pub fn size_ratio(&self) -> (r: u8)
        ensures
            r == self.ratio(),
    {
        match self {
            Scenario::StopoverSame | Scenario::DirectSame => 1,
            Scenario::StopoverTwice | Scenario::DirectTwice => 2,
            Scenario::StopoverThrice | Scenario::DirectThrice => 3,
        }
    }

    /// Every scenario stands in `all_spec()` exactly once, ordered by size
    /// ratio first and with the stopover ahead of the direct flight.
    pub proof fn lemma_all_is_complete(sc: Scenario)
        ensures
            Scenario::all_spec().len() == 6,
            Scenario::all_spec()[2 * (sc.ratio() - 1) + if sc.direct() { 1int } else { 0int }] == sc,
            forall|i: int, j: int|
                0 <= i < j < 6 ==> Scenario::all_spec()[i] != Scenario::all_spec()[j],
    {
    }
}

/// The fitted models of the six scenarios, one per scenario.
pub struct PredictionSystem<M> {
    pub stopover_same: M,
    pub direct_same: M,
    pub stopover_twice: M,
    pub direct_twice: M,
    pub stopover_thrice: M,
    pub direct_thrice: M,
}

impl<M> View for PredictionSystem<M> {
    type V = Map<Scenario, M>;

    /// The registry as a total map from scenario to model.
    open spec fn view(&self) -> Map<Scenario, M> {
        Map::total(
            |sc: Scenario|
                match sc {
                    Scenario::StopoverSame => self.stopover_same,
                    Scenario::DirectSame => self.direct_same,
                    Scenario::StopoverTwice => self.stopover_twice,
                    Scenario::DirectTwice => self.direct_twice,
                    Scenario::StopoverThrice => self.stopover_thrice,
                    Scenario::DirectThrice => self.direct_thrice,
                },
        )
    }
}

impl<M> PredictionSystem<M> {
    /// The model that was fitted for `scenario`.
    pub fn model(&self, scenario: Scenario) -> (m: &M)
        ensures
            self@.dom().contains(scenario),
            *m == self@[scenario],
    {
        match scenario {
            Scenario::StopoverSame => &self.stopover_same,
            Scenario::DirectSame => &self.direct_same,
            Scenario::StopoverTwice => &self.stopover_twice,
            Scenario::DirectTwice => &self.direct_twice,
            Scenario::StopoverThrice => &self.stopover_thrice,
            Scenario::DirectThrice => &self.direct_thrice,
        }
    }
}

} // verus!
