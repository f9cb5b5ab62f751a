use crate::driver::logs_call;
use crate::driver::same_config;
use crate::driver::CallRecord;
use crate::driver::StubDriver;
use crate::handles::Instance;
use crate::symbols::video_encode_queue_symbol_list;
use crate::symbols::video_encode_queue_symbols;
use crate::symbols::IDX_CMD_ENCODE_VIDEO;
use crate::table::FunctionTable;
use vstd::prelude::*;

verus! {

/// Proxy for the video encode extension family: encode command submission.
/// Unlike the decode proxy it retains the instance-level owning handle, the
/// alternate scoping the native revision of this family uses; its symbol is
/// resolved through the same instance loader.
#[derive(Clone)]
pub struct VideoEncodeQueue {
    pub handle: u64,
    pub fp: FunctionTable,
}

impl VideoEncodeQueue {
    /// The proxy carries one table slot per required symbol.
    pub open spec fn wf(self) -> bool {
        self.fp@.len() == video_encode_queue_symbols().len()
    }

    /// Builds the proxy for the given owning context: resolves each required
    /// symbol exactly once, in order, and retains the instance handle.
    pub fn new(entry: &mut StubDriver, instance: &Instance) -> (p: VideoEncodeQueue)
        ensures
            p.wf(),
            p.handle == instance.handle,
            forall|i: int|
                0 <= i < video_encode_queue_symbols().len() ==> p.fp@[i] == old(entry).addr_of(
                    #[trigger] video_encode_queue_symbols()[i],
                ),
            same_config(*old(entry), *final(entry)),
            final(entry).call_log@ == old(entry).call_log@,
            final(entry).resolve_log@ == old(entry).resolve_log@ + video_encode_queue_symbols(),
    {
        let symbols = video_encode_queue_symbol_list();
        let fp = FunctionTable::load(entry, instance.handle(), &symbols);
        VideoEncodeQueue { handle: instance.handle(), fp }
    }

    /// Records an encode operation on `command_buffer`, forwarding
    /// `encode_info` unchanged.  Void at the native layer.
    pub fn cmd_encode_video(&self, driver: &mut StubDriver, command_buffer: u64, encode_info: u64)
        requires
            self.wf(),
            self.fp@[IDX_CMD_ENCODE_VIDEO as int] != 0,
        ensures
            logs_call(
                *old(driver),
                *final(driver),
                (CallRecord {
                    addr: self.fp@[IDX_CMD_ENCODE_VIDEO as int],
                    context: command_buffer,
                    arg: encode_info,
                    has_buffer: false,
                    capacity: 0,
                }),
            ),
    {
        let addr = self.fp.entry_point(IDX_CMD_ENCODE_VIDEO);
        driver.drv_command(addr, command_buffer, encode_info);
    }

    /// The canonical name of this extension family.
    pub fn name() -> (r: &'static str)
        ensures
            r@ == "VK_KHR_video_encode_queue"@,
    {
        "VK_KHR_video_encode_queue"
    }

    /// The proxy's function table.
    pub fn fp(&self) -> (r: &FunctionTable)
        ensures
            *r == self.fp,
    {
        &self.fp
    }

    /// The owning instance handle this proxy retains.
    pub fn instance(&self) -> (h: u64)
        ensures
            h == self.handle,
    {
        self.handle
    }
}

} // verus!
