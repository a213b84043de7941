pub mod device;
pub mod usb;
