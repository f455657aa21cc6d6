use vstd::prelude::*;
use crate::Hresult;

verus! {

/// What the metadata side reports about one type definition; only the
/// human-readable name matters to the agent.
pub struct TypeDefProps {
    pub name: String,
}

/// What the metadata side reports about one method definition.
pub struct MethodProps {
    pub name: String,
}

/// What the info provider reports about a class handle: where its metadata
/// lives and the token to query it with.
pub struct ClassInfo {
    pub module_id: u64,
    pub token: u32,
}

/// What the info provider reports about a function handle.
pub struct FunctionInfo {
    pub module_id: u64,
    pub token: u32,
}

/// The metadata query facade: turns opaque tokens into readable names. It is
/// an external collaborator; implementations live outside this library and
/// nothing is promised of their answers.
pub trait MetadataImportTrait {
    fn get_method_props(&self, mb: u32) -> Result<MethodProps, Hresult>;

    fn get_typedef_props(&self, td: u32) -> Result<TypeDefProps, Hresult>;
}

/// The info-provider facade the host hands over at initialization: resolves
/// opaque handles and accepts the event-mask request. An external
/// collaborator, implemented by the embedding; every answer is treated as
/// arbitrary, and a failed lookup only degrades the notification.
pub trait ProfilerInfoApi {
    type Md: MetadataImportTrait;

    fn set_event_mask(&mut self, mask: u64) -> Result<(), Hresult>;

    fn get_class_id_info(&self, class_id: u64) -> Result<ClassInfo, Hresult>;

    fn get_function_info(&self, function_id: u64) -> Result<FunctionInfo, Hresult>;

    fn get_module_metadata(&self, module_id: u64) -> Result<Self::Md, Hresult>;

    fn get_object_size(&self, object_id: u64) -> Result<u64, Hresult>;

    fn get_object_generation(&self, object_id: u64) -> Result<u32, Hresult>;

    fn get_thread_info(&self, thread_id: u64) -> Result<u64, Hresult>;

    fn get_class_from_object(&self, object_id: u64) -> Result<u64, Hresult>;
}

} // verus!
