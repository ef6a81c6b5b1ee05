//! Programs written against the raw runtime interface.
pub mod type_confusion_fixed;
pub mod type_confusion_vulnerable;
