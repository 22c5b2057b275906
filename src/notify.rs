use vstd::prelude::*;
use crate::NodeType;
use crate::command::{node_kind_name, node_type_to_str};
use crate::level::VolumeLevel;
use crate::names::{truncate_node_name, truncated_name};

verus! {

/// The band of a level, in millionths, that picks the icon.
pub open spec fn classifier(micros: nat, node_type: NodeType) -> Seq<char> {
    if micros == 0 {
        "muted"@
    } else if micros <= 300_000 {
        "low"@
    } else if micros <= 600_000 {
        "medium"@
    } else if micros <= 1_000_000 {
        "high"@
    } else {
        match node_type {
            NodeType::Sink => "overamplified"@,
            NodeType::Source => "high"@,
        }
    }
}

/// The icon family of a node type.
pub open spec fn icon_prefix(node_type: NodeType) -> Seq<char> {
    match node_type {
        NodeType::Sink => "audio-volume"@,
        NodeType::Source => "microphone-sensitivity"@,
    }
}

/// The icon name shown with a level.
pub open spec fn icon_name(micros: nat, node_type: NodeType) -> Seq<char> {
    icon_prefix(node_type) + "-"@ + classifier(micros, node_type) + "-symbolic"@
}

/// A level, in millionths, as a whole percentage, halves rounded up.
pub open spec fn rounded_percent(micros: nat) -> nat {
    (micros + 5_000) / 10_000
}

/// What is shown to the user after an operation.
pub enum Notice {
    /// A plain message.
    Message { text: String },
    /// A volume notification: the node's name as title, the level in percent, an icon.
    Volume { title: String, percent: u64, icon: String },
}

/// The band of a level: "muted", "low", "medium", "high", or, for a sink above 100%,
/// "overamplified".
pub fn get_volume_classifier(volume: VolumeLevel, node_type: &NodeType) -> (r: String)
    ensures
        r@ == classifier(volume.micros as nat, *node_type),
{
    let m = volume.micros;
    if m == 0 {
        String::from_str("muted")
    } else if m <= 300_000 {
        String::from_str("low")
    } else if m <= 600_000 {
        String::from_str("medium")
    } else if m <= 1_000_000 {
        String::from_str("high")
    } else {
        match node_type {
            NodeType::Sink => String::from_str("overamplified"),
            NodeType::Source => String::from_str("high"),
        }
    }
}

/// The symbolic icon name for a level of a node type.
pub fn get_icon(volume: VolumeLevel, node_type: &NodeType) -> (r: String)
    ensures
        r@ == icon_name(volume.micros as nat, *node_type),
{
    let mut r = match node_type {
        NodeType::Sink => String::from_str("audio-volume"),
        NodeType::Source => String::from_str("microphone-sensitivity"),
    };
    r.append("-");
    let c = get_volume_classifier(volume, node_type);
    r.append(c.as_str());
    r.append("-symbolic");
    r
}

/// The level as a whole percentage, halves rounded up.
pub fn percent_of(volume: VolumeLevel) -> (r: u64)
    ensures
        r == rounded_percent(volume.micros as nat),
{
    (volume.micros / 10_000) + (if volume.micros % 10_000 >= 5_000 {
        1
    } else {
        0
    })
}

/// The text shown when no default node of a type can be found.
pub open spec fn missing_node_text(node_type: NodeType) -> Seq<char> {
    "Cannot determine default "@ + node_kind_name(node_type)
}

/// What to show for a level of the default node of a type, given that node's name, or
/// `None` when there is no default node.
pub fn notice_for(volume: VolumeLevel, node_type: &NodeType, node_name: Option<String>) -> (r:
    Notice)
    ensures
        match node_name {
            None => r matches Notice::Message { text } && text@ == missing_node_text(*node_type),
            Some(name) => r matches Notice::Volume { title, percent, icon } && title@
                == truncated_name(name@) && percent == rounded_percent(volume.micros as nat)
                && icon@ == icon_name(volume.micros as nat, *node_type),
        },
{
    match node_name {
        None => {
            let mut text = String::from_str("Cannot determine default ");
            let kind = node_type_to_str(node_type);
            text.append(kind.as_str());
            Notice::Message { text }
        },
        Some(name) => Notice::Volume {
            title: truncate_node_name(name),
            percent: percent_of(volume),
            icon: get_icon(volume, node_type),
        },
    }
}

} // verus!
