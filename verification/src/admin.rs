//! The admin commands that write the settings, less their sending of the
//! reply.

use crate::config::{BotConfig, BotConfigView};
use crate::decimal::{append_decimal, decimal_digits};
use vstd::prelude::*;

verus! {

/// The channel that an admin pointed a command at.
#[derive(Clone, Copy, Debug, PartialEq, Eq, Structural)]
pub struct ChannelTarget {
    pub id: u64,
    /// Whether it is a category, which holds channels, and no channel that
    /// holds messages.
    pub is_category: bool,
}

/// The reply to an admin who chose a category as the image channel.
pub open spec fn category_refused_text() -> Seq<char> {
    "You can not select a category as your image channel..."@
}

/// The reply to an admin whose choice of image channel was taken.
pub open spec fn image_channel_set_text(channel: u64) -> Seq<char> {
    "Channel with id "@ + decimal_digits(channel as nat) + " set as image channel"@
}

/// Makes `channel` the channel whose images are forwarded, unless it is a
/// category. Returns the reply to the admin, which says which of the two
/// happened.
pub fn set_image_channel(config: &mut BotConfig, channel: ChannelTarget) -> (reply: String)
    ensures
        channel.is_category ==> final(config)@ == old(config)@ && reply@
            == category_refused_text(),
        !channel.is_category ==> final(config)@ == (BotConfigView {
            image_forward_channel: Some(channel.id),
            ..old(config)@
        }) && reply@ == image_channel_set_text(channel.id),
{
    if channel.is_category {
        String::from_str("You can not select a category as your image channel...")
    } else {
        config.set_image_forward_channel(channel.id);
        let mut reply = String::from_str("Channel with id ");
        append_decimal(&mut reply, channel.id);
        reply.append(" set as image channel");
        reply
    }
}

/// Makes `channel` the category under which tickets are opened, unless it
/// is no category. Tells whether it was taken.
pub fn set_ticket_category(config: &mut BotConfig, channel: ChannelTarget) -> (taken: bool)
    ensures
        taken == channel.is_category,
        taken ==> final(config)@ == (BotConfigView {
            ticket_category: Some(channel.id),
            ..old(config)@
        }),
        !taken ==> final(config)@ == old(config)@,
{
    if channel.is_category {
        config.set_ticket_category(channel.id);
        true
    } else {
        false
    }
}

} // verus!
