pub mod t_minty_green;
