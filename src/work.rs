use vstd::prelude::*;

verus! {

/// A unit of work that a pool worker can execute.
pub trait WorkTrait {
    fn do_work(&self);
}

/// What a unit of work is about.
#[derive(Debug, Clone, Copy, PartialEq, Eq, Structural)]
pub enum WorkType {
    /// The newest snapshot of one instrument.
    TokenWiseLatest(usize),
    /// Every update of one instrument.
    TokenWise(usize),
    /// A market-wide message.
    MarketMessage,
}

/// Work aimed at one client, named by its slot index.
#[derive(Debug, Clone, Copy, PartialEq, Eq, Structural)]
pub struct ClientWork {
    pub work_type: WorkType,
    pub client: usize,
}

impl WorkTrait for ClientWork {
    /// Client operations are an extension point; running one changes nothing
    /// at this layer.
    fn do_work(&self) {
    }
}

} // verus!
