use vstd::prelude::*;

verus! {

/// Candle analysis settings: the number of candles in the averaging window.
#[derive(Debug, Clone)]
pub struct Analyzer {
    window: usize,
}

impl View for Analyzer {
    type V = usize;

    closed spec fn view(&self) -> usize {
        self.window
    }
}

impl Analyzer {
    /// An analyzer averaging over `window` candles.
    pub fn new(window: usize) -> (a: Analyzer)
        ensures
            a@ == window,
    {
        Analyzer { window }
    }

    /// The averaging window.
    pub fn window(&self) -> (w: usize)
        ensures
            w == self@,
    {
        self.window
    }
}

} // verus!
