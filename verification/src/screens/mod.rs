pub mod add_purchase;
pub mod home;
