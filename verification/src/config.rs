//! The bot's settings: the one value that admin commands write and that the
//! handling of every message reads.
//!
//! The caller keeps a single `BotConfig` behind a lock, holds the lock for
//! one call of a method here, and lets go of it before doing anything else.
//! Each writing method replaces one field and leaves the others as they
//! were, so a reader sees the settings either before a write or after it.

use vstd::prelude::*;

verus! {

/// The settings.
#[derive(Clone, Copy, Debug, PartialEq, Eq)]
pub struct BotConfig {
    image_forward_channel: Option<u64>,
    ticket_category: Option<u64>,
    ticket_counter: Option<u64>,
}

/// What a [`BotConfig`] holds.
pub struct BotConfigView {
    /// The channel whose images are forwarded to the print service.
    pub image_forward_channel: Option<u64>,
    /// The category under which tickets are opened.
    pub ticket_category: Option<u64>,
    /// The number given to the latest ticket.
    pub ticket_counter: Option<u64>,
}

impl View for BotConfig {
    type V = BotConfigView;

    closed spec fn view(&self) -> BotConfigView {
        BotConfigView {
            image_forward_channel: self.image_forward_channel,
            ticket_category: self.ticket_category,
            ticket_counter: self.ticket_counter,
        }
    }
}

/// Whether a ticket counter that stands at `current` may be set to `value`:
/// a counter never goes back.
pub open spec fn counter_may_become(current: Option<u64>, value: u64) -> bool {
    match current {
        Some(present) => present <= value,
        None => true,
    }
}

impl BotConfig {
    /// Settings with nothing set.
    pub fn new() -> (config: BotConfig)
        ensures
            config@ == (BotConfigView {
                image_forward_channel: None,
                ticket_category: None,
                ticket_counter: None,
            }),
    {
        BotConfig { image_forward_channel: None, ticket_category: None, ticket_counter: None }
    }

    /// The channel whose images are forwarded, if one is set.
    pub fn image_forward_channel(&self) -> (channel: Option<u64>)
        ensures
            channel == self@.image_forward_channel,
    {
        self.image_forward_channel
    }

    /// The category under which tickets are opened, if one is set.
    pub fn ticket_category(&self) -> (category: Option<u64>)
        ensures
            category == self@.ticket_category,
    {
        self.ticket_category
    }

    /// The number given to the latest ticket, if any was given.
    pub fn ticket_counter(&self) -> (counter: Option<u64>)
        ensures
            counter == self@.ticket_counter,
    {
        self.ticket_counter
    }

    /// Makes `channel` the channel whose images are forwarded.
    pub fn set_image_forward_channel(&mut self, channel: u64)
        ensures
            final(self)@ == (BotConfigView { image_forward_channel: Some(channel), ..old(self)@ }),
    {
        self.image_forward_channel = Some(channel);
    }

    /// Stops the forwarding of images.
    pub fn clear_image_forward_channel(&mut self)
        ensures
            final(self)@ == (BotConfigView { image_forward_channel: None, ..old(self)@ }),
    {
        self.image_forward_channel = None;
    }

    /// Makes `category` the category under which tickets are opened.
    pub fn set_ticket_category(&mut self, category: u64)
        ensures
            final(self)@ == (BotConfigView { ticket_category: Some(category), ..old(self)@ }),
    {
        self.ticket_category = Some(category);
    }

    /// Forgets the ticket category.
    pub fn clear_ticket_category(&mut self)
        ensures
            final(self)@ == (BotConfigView { ticket_category: None, ..old(self)@ }),
    {
        self.ticket_category = None;
    }

    /// Sets the ticket counter to `value`, unless that would take it back.
    /// Tells whether it was set.
    pub fn set_ticket_counter(&mut self, value: u64) -> (set: bool)
        ensures
            set == counter_may_become(old(self)@.ticket_counter, value),
            set ==> final(self)@ == (BotConfigView { ticket_counter: Some(value), ..old(self)@ }),
            !set ==> final(self)@ == old(self)@,
    {
        let may = match self.ticket_counter {
            Some(present) => present <= value,
            None => true,
        };
        if may {
            self.ticket_counter = Some(value);
        }
        may
    }

    /// Forgets the ticket counter.
    pub fn clear_ticket_counter(&mut self)
        ensures
            final(self)@ == (BotConfigView { ticket_counter: None, ..old(self)@ }),
    {
        self.ticket_counter = None;
    }
}

impl Default for BotConfig {
    fn default() -> (config: BotConfig)
        ensures
            config@ == (BotConfigView {
                image_forward_channel: None,
                ticket_category: None,
                ticket_counter: None,
            }),
    {
        BotConfig::new()
    }
}

} // verus!
