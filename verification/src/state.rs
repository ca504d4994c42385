//! The slot that holds the last response.

use vstd::prelude::*;
use crate::response::{HttpResponse, ResponseView};

verus! {

/// The record of the exchange that completed last, kept for whoever wants
/// to read it later. Before any exchange has completed it holds the blank
/// record.
///
/// The slot is a plain value. Whoever shares it between exchanges that run
/// side by side guards it, and then the exchange that stores last wins.
#[derive(Debug, PartialEq, Eq)]
pub struct AppState {
    pub response: HttpResponse,
}

impl View for AppState {
    type V = ResponseView;

    open spec fn view(&self) -> ResponseView {
        self.response@
    }
}

impl AppState {
    /// What the slot holds after `record` was stored into a slot that held
    /// `before`: the record alone.
    pub open spec fn stored(before: ResponseView, record: ResponseView) -> ResponseView {
        record
    }

    /// The slot before any exchange has completed.
    pub fn new() -> (state: Self)
        ensures
            state@ == ResponseView::blank(),
    {
        AppState { response: HttpResponse::new() }
    }

    /// Puts `record` in the place of what the slot held. Nothing of the
    /// earlier record is kept.
    pub fn store(&mut self, record: HttpResponse)
        ensures
            final(self)@ == Self::stored(old(self)@, record@),
    {
        self.response = record;
    }

    /// The record that the slot holds.
    pub fn last(&self) -> (record: &HttpResponse)
        ensures
            record@ == self@,
    {
        &self.response
    }
}

/// The last store wins: after two records were stored one after the
/// other, the slot holds the second, whatever it held before and whatever
/// the first was.
pub proof fn lemma_last_store_wins(before: ResponseView, first: ResponseView, second: ResponseView)
    ensures
        AppState::stored(AppState::stored(before, first), second) == second,
        AppState::stored(AppState::stored(before, first), second) == AppState::stored(
            before,
            second,
        ),
{
}

} // verus!
