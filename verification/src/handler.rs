use vstd::prelude::*;
use crate::Hresult;

verus! {

/// The user-supplied handler: one hook per supported notification kind, each
/// with a harmless no-op default, so a handler need only override what it
/// cares about. A hook's failure is propagated to the host as a status code;
/// nothing else is assumed of what an implementation does.
pub trait ProfilerHandler {
    fn on_class_load(&mut self, name: &str, status: Hresult) -> Result<(), Hresult> {
        Ok(())
    }

    fn on_class_unload(&mut self, name: &str, status: Hresult) -> Result<(), Hresult> {
        Ok(())
    }

    fn on_jit_start(&mut self, name: &str) -> Result<(), Hresult> {
        Ok(())
    }

    fn on_jit_finish(&mut self, name: &str, status: Hresult) -> Result<(), Hresult> {
        Ok(())
    }

    fn on_thread_created(&mut self, os_id: u64) -> Result<(), Hresult> {
        Ok(())
    }

    fn on_thread_destroyed(&mut self, os_id: u64) -> Result<(), Hresult> {
        Ok(())
    }

    fn on_thread_resumed(&mut self, os_id: u64) -> Result<(), Hresult> {
        Ok(())
    }

    fn on_thread_suspended(&mut self, os_id: u64) -> Result<(), Hresult> {
        Ok(())
    }

    fn on_exception_thrown(&mut self, name: &str) -> Result<(), Hresult> {
        Ok(())
    }

    fn on_object_allocated(
        &mut self,
        object_id: u64,
        size: u64,
        name: &str,
        generation: Option<u32>,
    ) -> Result<(), Hresult> {
        Ok(())
    }

    fn on_gc_finished(&mut self) -> Result<(), Hresult> {
        Ok(())
    }

    fn on_shutdown(&mut self) -> Result<(), Hresult> {
        Ok(())
    }
}

/// A handler that overrides nothing: every notification is accepted and
/// ignored.
pub struct NoopHandler;

impl ProfilerHandler for NoopHandler {

}

} // verus!
