pub mod accrue_view;
pub mod admin_mock_yield;
pub mod apply_compliance;
pub mod initialize;
pub mod private_bridge;
pub mod private_deposit;
pub mod private_lend;
pub mod private_swap;
pub mod private_withdraw;
