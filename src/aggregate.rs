use vstd::prelude::*;
use crate::flow::{merge_into, FlowMap, FlowTable};
use crate::packet::{decode_info_from_packet, frame_info, micros, Device, PacketExt};
use crate::pkt_parser::DecodeError;
use crate::sniffer::RunStatus;

verus! {

/// Decodes a frame and counts it in the map; a frame that cannot be decoded changes
/// nothing.
pub fn record_frame(map: &mut FlowMap, device: &Device, packet: PacketExt) -> (r: Result<(), DecodeError>)
    requires
        old(map).wf(),
    ensures
        final(map).wf(),
        match frame_info(device.local_addresses(), packet.data@) {
            None => r is Err && final(map)@ == old(map)@,
            Some((address, port, protocol, len)) => r is Ok && final(map)@ == merge_into(
                old(map)@,
                (address, port),
                protocol,
                len as u64,
                micros(packet.timestamp.sec, packet.timestamp.u_sec) as u64,
            ),
        },
{
    match decode_info_from_packet(device, packet) {
        Ok(info) => {
            map.merge(info.address, info.port, info.protocol, info.byte_transmitted, info.time_stamp);
            Ok(())
        },
        Err(e) => Err(e),
    }
}

/// Decodes a frame and counts it in the shared table; a frame that cannot be decoded
/// is dropped. The result says whether the frame was decoded.
pub fn record_shared(table: &FlowTable, device: &Device, packet: PacketExt) -> (r: Result<(), DecodeError>)
    ensures
        r is Ok <==> frame_info(device.local_addresses(), packet.data@) is Some,
{
    match decode_info_from_packet(device, packet) {
        Ok(info) => {
            table.merge(info.address, info.port, info.protocol, info.byte_transmitted, info.time_stamp);
            Ok(())
        },
        Err(e) => Err(e),
    }
}

/// What the capture task does next.
#[derive(Debug, Clone, Copy, PartialEq, Eq, Structural)]
pub enum CaptureAction {
    /// Take the next frame from the interface and hand it on.
    Capture,
    /// Wait, without capturing, until the state changes.
    Block,
    /// Stop capturing; the channel closes.
    Exit,
}

/// The capture task captures while the capture runs, waits while it is paused, and ends
/// once it is stopped or has failed.
pub fn capture_action(status: &RunStatus) -> (r: CaptureAction)
    ensures
        r == match *status {
            RunStatus::Running => CaptureAction::Capture,
            RunStatus::Wait => CaptureAction::Block,
            _ => CaptureAction::Exit,
        },
{
    match status {
        RunStatus::Running => CaptureAction::Capture,
        RunStatus::Wait => CaptureAction::Block,
        _ => CaptureAction::Exit,
    }
}

/// What the periodic reporter does next.
#[derive(Debug, Clone, Copy, PartialEq, Eq, Structural)]
pub enum ReporterAction {
    /// Wait one interval, then append a snapshot of the table to the report.
    Report,
    /// Wait until the state changes.
    Block,
    /// End the reporter.
    Exit,
}

/// The reporter writes while the capture runs, waits while it is paused, and ends once
/// it is stopped or has failed.
pub fn reporter_action(status: &RunStatus) -> (r: ReporterAction)
    ensures
        r == match *status {
            RunStatus::Running => ReporterAction::Report,
            RunStatus::Wait => ReporterAction::Block,
            _ => ReporterAction::Exit,
        },
{
    match status {
        RunStatus::Running => ReporterAction::Report,
        RunStatus::Wait => ReporterAction::Block,
        _ => ReporterAction::Exit,
    }
}

/// The state of a capture whose decoder has gone away: the frames have nowhere to go.
pub fn channel_closed() -> (r: RunStatus)
    ensures
        r matches RunStatus::Error(m) && m@ == "The decoder has stopped receiving frames"@,
{
    RunStatus::Error("The decoder has stopped receiving frames".to_string())
}

} // verus!
