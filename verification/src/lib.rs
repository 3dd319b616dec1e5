//! A marketplace ledger: parties register as buyers, sellers or both, sellers
//! publish listings and buyers order against the listed stock.
//!
//! The ledger is an explicit value, [`Marketplace`], and every operation takes
//! the calling identity as its first argument. Each operation is specified
//! against the abstract state [`Libro`], and the laws that relate several
//! operations are proved in [`leyes`].

pub mod cuenta;
pub mod historia;
pub mod indice;
pub mod leyes;
pub mod libro;
pub mod mercado;
pub mod tipos;

pub use cuenta::AccountId;
pub use historia::Llamada;
pub use libro::Libro;
pub use mercado::Marketplace;
pub use tipos::{Categoria, ErrorSistema, Estado, OrdenCompra, Publicacion, Rol, Usuario};
