//! Generates widget trees from data, and reads, writes and relabels the
//! resulting properties by their labels.

pub mod derive;
pub mod error;
pub mod form;
pub mod props;
pub mod reflect;
pub mod text;
pub mod utils;
pub mod widget;

pub use crate::derive::{impl_widget_deser_trait, Derived, DeriveError, TypeShape};
pub use crate::error::{FltkFormError, FltkFormErrorKind};
pub use crate::form::Form;
pub use crate::props::HasProps;
pub use crate::reflect::{FlImage, FltkForm};
pub use crate::widget::{enum_form, enum_view, make_image_frame, struct_form, Content, InputKind, Widget};
