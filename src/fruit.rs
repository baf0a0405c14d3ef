use vstd::prelude::*;

verus! {

#[derive(Clone, Copy, Debug, PartialEq, Eq, Structural)]
pub enum AppleVariety {
    GoldenDelicious,
    GrannySmith,
    Fuji,
}

#[derive(Clone, Copy, Debug, PartialEq, Eq, Structural)]
pub enum BananaVariety {
    Cavendish,
    GrosMichel,
    Manzano,
}

#[derive(Clone, Copy, Debug, PartialEq, Eq, Structural)]
pub enum CherryVariety {
    Montmorency,
    Bing,
}

/// A snack made of one apple, one banana and one cherry, each of some variety.
#[derive(Clone, Copy, Debug, PartialEq, Eq, Structural)]
pub struct FruitSnack {
    pub apple: AppleVariety,
    pub banana: BananaVariety,
    pub cherry: CherryVariety,
}

impl FruitSnack {
    pub fn new(apple: AppleVariety, banana: BananaVariety, cherry: CherryVariety) -> (r: FruitSnack)
        ensures
            r.apple == apple,
            r.banana == banana,
            r.cherry == cherry,
    {
        FruitSnack { apple, banana, cherry }
    }
}

} // verus!
