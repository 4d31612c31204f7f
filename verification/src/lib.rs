//! Lets a long-running program act as a managed background service: it
//! receives lifecycle control requests (start, stop, pause, resume,
//! parameter-change, power events) from the host's service control manager
//! and reports status transitions back in a protocol-compliant way.
//!
//! The library holds the verified core: the status-report protocol and the
//! control state machine.  The driver around it (registration with the
//! dispatcher, the mutex and condition variable, the actual status system
//! calls) is ordinary glue.

pub mod control;
pub mod driver;
pub mod status;

pub use control::Error;
pub use control::PowerBroadcastSetting;
pub use control::PowerSettingId;
pub use control::ServiceControl;
pub use control::ServiceError;
pub use control::ServiceHandler;
pub use control::SharedServiceState;
pub use driver::RunMode;
pub use driver::ServiceArgs;
pub use status::ServiceState;
pub use status::StatusReport;
pub use status::StatusUpdater;
