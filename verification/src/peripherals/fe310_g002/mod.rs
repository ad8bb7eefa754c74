pub mod fe310_uart;
pub mod gpio;
pub mod prci;
