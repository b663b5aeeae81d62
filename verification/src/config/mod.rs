pub mod ds2_attach;
