//! The state behind what the menu draws: the list of providers and the
//! entry that is highlighted.

use vstd::prelude::*;
use crate::api::ApiProvider;

verus! {

/// The mathematical content of the provider list.
pub struct ProvidersModel {
    pub items: Seq<ApiProvider>,
    /// The index of the highlighted entry, if one is highlighted.
    pub selected: Option<int>,
}

impl ProvidersModel {
    /// A highlighted index is an index of the list.
    pub open spec fn wf(self) -> bool {
        self.selected matches Some(i) ==> 0 <= i < self.items.len()
    }

    /// The highlight moved one entry down, stopping at the last. With
    /// nothing highlighted, the first entry gets the highlight.
    pub open spec fn next(self) -> ProvidersModel {
        if self.items.len() == 0 {
            self
        } else {
            ProvidersModel {
                selected: Some(
                    match self.selected {
                        None => 0,
                        Some(i) => if i + 1 < self.items.len() {
                            i + 1
                        } else {
                            i
                        },
                    },
                ),
                ..self
            }
        }
    }

    /// The highlight moved one entry up, stopping at the first. With
    /// nothing highlighted, the last entry gets the highlight.
    pub open spec fn previous(self) -> ProvidersModel {
        if self.items.len() == 0 {
            self
        } else {
            ProvidersModel {
                selected: Some(
                    match self.selected {
                        None => self.items.len() - 1,
                        Some(i) => if i > 0 {
                            i - 1
                        } else {
                            i
                        },
                    },
                ),
                ..self
            }
        }
    }

    /// The highlight on the first entry.
    pub open spec fn first(self) -> ProvidersModel {
        if self.items.len() == 0 {
            self
        } else {
            ProvidersModel { selected: Some(0), ..self }
        }
    }

    /// The highlight on the last entry.
    pub open spec fn last(self) -> ProvidersModel {
        if self.items.len() == 0 {
            self
        } else {
            ProvidersModel { selected: Some(self.items.len() - 1), ..self }
        }
    }

    /// The provider that is highlighted, if one is.
    pub open spec fn highlighted(self) -> Option<ApiProvider> {
        match self.selected {
            Some(i) => Some(self.items[i]),
            None => None,
        }
    }
}

/// The list of providers that the menu offers, and its highlight.
#[derive(Clone, Debug)]
pub struct ApiProvidersWidget {
    items: Vec<ApiProvider>,
    selected: Option<usize>,
}

impl View for ApiProvidersWidget {
    type V = ProvidersModel;

    closed spec fn view(&self) -> ProvidersModel {
        ProvidersModel {
            items: self.items@,
            selected: match self.selected {
                Some(i) => Some(i as int),
                None => None,
            },
        }
    }
}

impl ApiProvidersWidget {
    /// A list of `items` with nothing highlighted.
    pub fn new(items: Vec<ApiProvider>) -> (r: ApiProvidersWidget)
        ensures
            r@ == (ProvidersModel { items: items@, selected: None }),
            r@.wf(),
    {
        ApiProvidersWidget { items, selected: None }
    }

    /// How many providers the list offers.
    pub fn len(&self) -> (r: usize)
        ensures
            r == self@.items.len(),
    {
        self.items.len()
    }

    /// The provider at `index`, if the list is that long.
    pub fn get(&self, index: usize) -> (r: Option<ApiProvider>)
        ensures
            r == (if index < self@.items.len() {
                Some(self@.items[index as int])
            } else {
                None
            }),
    {
        if index < self.items.len() {
            Some(self.items[index])
        } else {
            None
        }
    }

    /// The index of the highlighted entry, if one is highlighted.
    pub fn selected(&self) -> (r: Option<usize>)
        ensures
            match r {
                Some(i) => self@.selected == Some(i as int),
                None => self@.selected.is_none(),
            },
    {
        self.selected
    }

    /// The provider that is highlighted, if one is.
    pub fn highlighted(&self) -> (r: Option<ApiProvider>)
        requires
            self@.wf(),
        ensures
            r == self@.highlighted(),
    {
        match self.selected {
            Some(i) => Some(self.items[i]),
            None => None,
        }
    }

    /// Moves the highlight one entry down; it stops at the last entry.
    pub fn select_next(&mut self)
        requires
            old(self)@.wf(),
        ensures
            final(self)@ == old(self)@.next(),
            final(self)@.wf(),
    {
        if self.items.len() > 0 {
            self.selected = Some(
                match self.selected {
                    None => 0,
                    Some(i) => if i + 1 < self.items.len() {
                        i + 1
                    } else {
                        i
                    },
                },
            );
        }
    }

    /// Moves the highlight one entry up; it stops at the first entry.
    pub fn select_previous(&mut self)
        requires
            old(self)@.wf(),
        ensures
            final(self)@ == old(self)@.previous(),
            final(self)@.wf(),
    {
        if self.items.len() > 0 {
            self.selected = Some(
                match self.selected {
                    None => self.items.len() - 1,
                    Some(i) => if i > 0 {
                        i - 1
                    } else {
                        i
                    },
                },
            );
        }
    }

    /// Puts the highlight on the first entry.
    pub fn select_first(&mut self)
        requires
            old(self)@.wf(),
        ensures
            final(self)@ == old(self)@.first(),
            final(self)@.wf(),
    {
        if self.items.len() > 0 {
            self.selected = Some(0);
        }
    }

    /// Puts the highlight on the last entry.
    pub fn select_last(&mut self)
        requires
            old(self)@.wf(),
        ensures
            final(self)@ == old(self)@.last(),
            final(self)@.wf(),
    {
        if self.items.len() > 0 {
            self.selected = Some(self.items.len() - 1);
        }
    }
}

} // verus!
