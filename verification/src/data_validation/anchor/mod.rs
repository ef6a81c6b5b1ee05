//! Programs written with the Anchor framework.
pub mod type_confusion_fixed;
pub mod type_confusion_vulnerable;
pub mod range_check_fixed;
pub mod range_check_vulnerable;
pub mod duplicate_account_fixed;
pub mod duplicate_account_vulnerable;
