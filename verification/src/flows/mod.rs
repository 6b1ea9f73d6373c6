pub mod insert_trader_account_order_flow;
