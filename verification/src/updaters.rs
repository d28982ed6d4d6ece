pub mod login_form;
