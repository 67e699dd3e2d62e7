//! Client-side core of a declarative-UI protocol: a page is a tree of typed
//! elements addressed by index paths, bound where needed to shared or private
//! datasets; mutations of the tree accumulate into change-sets that are
//! drained for synchronization, and inbound protocol messages are dispatched
//! to handlers that may answer with outbound dataset mutations.
//!
//! Transport, authentication and wire serialization are external
//! collaborators: this crate only produces and consumes plain `Message`
//! values.

pub mod dataset;
pub mod dispatch;
pub mod element;
pub mod message;
pub mod page;
pub mod path;
pub mod session;

pub use dataset::DatasetNamespace;
pub use dataset::DatasetPath;
pub use dataset::ResolvedDatasetPath;
pub use dispatch::DispatchContext;
pub use dispatch::DispatchOutcome;
pub use dispatch::UiAction;
pub use element::ElementUpdate;
pub use element::UiElement;
pub use element::UiElementContent;
pub use element::UiElementContentPart;
pub use element::UiElementKind;
pub use message::DatasetData;
pub use message::DatasetMessage;
pub use message::Message;
pub use message::UiInput;
pub use message::UiMessage;
pub use page::Page;
pub use page::UiChange;
pub use page::UiPageManager;
pub use path::UiError;
pub use path::UiPath;
pub use session::SessionStart;
pub use session::start_session;
