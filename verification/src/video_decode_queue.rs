use crate::driver::logs_call;
use crate::driver::same_config;
use crate::driver::CallRecord;
use crate::driver::StubDriver;
use crate::handles::Device;
use crate::handles::Instance;
use crate::symbols::video_decode_queue_symbol_list;
use crate::symbols::video_decode_queue_symbols;
use crate::symbols::IDX_CMD_DECODE_VIDEO;
use crate::table::FunctionTable;
use vstd::prelude::*;

verus! {

/// Proxy for the video decode extension family: decode command submission,
/// scoped to a device-level owning handle, with its symbol resolved through
/// the owning instance's loader.
#[derive(Clone)]
pub struct VideoDecodeQueue {
    pub handle: u64,
    pub fp: FunctionTable,
}

impl VideoDecodeQueue {
    /// The proxy carries one table slot per required symbol.
    pub open spec fn wf(self) -> bool {
        self.fp@.len() == video_decode_queue_symbols().len()
    }

    /// Builds the proxy for the given owning context: resolves each required
    /// symbol exactly once, in order, and retains the device handle.
    pub fn new(entry: &mut StubDriver, instance: &Instance, device: &Device) -> (p:
        VideoDecodeQueue)
        ensures
            p.wf(),
            p.handle == device.handle,
            forall|i: int|
                0 <= i < video_decode_queue_symbols().len() ==> p.fp@[i] == old(entry).addr_of(
                    #[trigger] video_decode_queue_symbols()[i],
                ),
            same_config(*old(entry), *final(entry)),
            final(entry).call_log@ == old(entry).call_log@,
            final(entry).resolve_log@ == old(entry).resolve_log@ + video_decode_queue_symbols(),
    {
        let symbols = video_decode_queue_symbol_list();
        let fp = FunctionTable::load(entry, instance.handle(), &symbols);
        VideoDecodeQueue { handle: device.handle(), fp }
    }

    /// Records a decode operation on `command_buffer`, forwarding
    /// `decode_info` unchanged.  Void at the native layer.
    pub fn cmd_decode_video(&self, driver: &mut StubDriver, command_buffer: u64, decode_info: u64)
        requires
            self.wf(),
            self.fp@[IDX_CMD_DECODE_VIDEO as int] != 0,
        ensures
            logs_call(
                *old(driver),
                *final(driver),
                (CallRecord {
                    addr: self.fp@[IDX_CMD_DECODE_VIDEO as int],
                    context: command_buffer,
                    arg: decode_info,
                    has_buffer: false,
                    capacity: 0,
                }),
            ),
    {
        let addr = self.fp.entry_point(IDX_CMD_DECODE_VIDEO);
        driver.drv_command(addr, command_buffer, decode_info);
    }

    /// The canonical name of this extension family.
    pub fn name() -> (r: &'static str)
        ensures
            r@ == "VK_KHR_video_decode_queue"@,
    {
        "VK_KHR_video_decode_queue"
    }

    /// The proxy's function table.
    pub fn fp(&self) -> (r: &FunctionTable)
        ensures
            *r == self.fp,
    {
        &self.fp
    }

    /// The owning device handle this proxy retains.
    pub fn device(&self) -> (h: u64)
        ensures
            h == self.handle,
    {
        self.handle
    }
}

} // verus!
