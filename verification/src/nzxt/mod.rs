pub mod fans;
pub mod kraken;
pub mod lcd;
pub mod pump;
pub mod rgb;
pub mod transfer;
