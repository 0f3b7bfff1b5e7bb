//! Plain descriptions of devices and channels.
//!
//! The library never touches hardware. The program around it lists the
//! devices once, describes each by the values below, and refers to a device
//! or a channel by its position in that list.

use vstd::prelude::*;

verus! {

/// One value for each of the three axes.
#[derive(Debug, Clone, PartialEq, Eq)]
pub struct AxisSet<T> {
    pub x: T,
    pub y: T,
    pub z: T,
}

impl<T> AxisSet<T> {
    /// The three values in the order x, y, z.
    pub fn as_array_ref(&self) -> (axes: [&T; 3])
        ensures
            axes@ == seq![&self.x, &self.y, &self.z],
    {
        let axes = [&self.x, &self.y, &self.z];
        assert(axes@ =~= seq![&self.x, &self.y, &self.z]);
        axes
    }
}

/// What device selection reads of a channel.
#[derive(Debug, Clone, PartialEq, Eq)]
pub struct ChannelInfo {
    /// The channel's identifier, such as `accel_x`.
    pub id: Option<String>,
    /// Whether the channel delivers data to the host.
    pub is_input: bool,
    /// Whether the channel can take part in a buffered read.
    pub is_scan_element: bool,
}

/// What device selection reads of a device.
#[derive(Debug, Clone, PartialEq, Eq)]
pub struct DeviceInfo {
    /// Whether the device is a trigger rather than a sensor.
    pub is_trigger: bool,
    /// Whether the device supports buffered acquisition.
    pub is_buffer_capable: bool,
    /// The device's channels in the order in which it lists them.
    pub channels: Vec<ChannelInfo>,
    /// Position in `channels` of the input channel that the device finds
    /// under the name `timestamp`, if it finds one.
    pub timestamp: Option<usize>,
}

/// The device that was selected, with its channels. `dev` is a position in
/// the list of devices, the channels are positions in that device's list.
#[derive(Debug, Clone, PartialEq, Eq)]
pub struct DiscoveredDevice {
    pub dev: usize,
    pub accel: AxisSet<usize>,
    pub gyro: Option<AxisSet<usize>>,
    pub timestamp: Option<usize>,
}

} // verus!
