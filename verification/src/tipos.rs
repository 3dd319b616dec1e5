//! The records of the ledger and the two role gates.

use crate::cuenta::AccountId;
use vstd::prelude::*;

verus! {

/// Why an operation was refused.
#[derive(Debug, Clone, Copy, PartialEq, Eq, Structural)]
pub enum ErrorSistema {
    /// The caller has no profile.
    UsuarioNoRegistrado,
    /// The caller already has a profile; the first one stays.
    UsuarioYaRegistrado,
    /// The caller's role does not allow selling.
    UsuarioNoEsVendedor,
    /// The caller's role does not allow buying.
    UsuarioNoEsComprador,
    VendedorNoExistente,
    VendedorSinPublicaciones,
    /// The listing has no stock left.
    PublicacionSinStock,
    /// No listing has the given id.
    PublicacionNoExistente,
    /// The catalog is full: one more listing would overflow its counter.
    UnderflowPublicaciones,
    /// The order ledger is full: one more order would overflow its counter.
    UnderflowOrdenes,
}

/// What a party may do.
#[derive(Debug, Clone, Copy, PartialEq, Eq, Structural)]
pub enum Rol {
    Comprador,
    Vendedor,
    Ambos,
}

#[derive(Debug, Clone, Copy, PartialEq, Eq, Structural)]
pub enum Categoria {
    Computacion,
    Ropa,
    Herramientas,
    Muebles,
}

/// The status of an order. The ledger only ever produces `Pendiente`; the
/// other states are declared for hosts that extend it.
#[derive(Debug, Clone, Copy, PartialEq, Eq, Structural)]
pub enum Estado {
    Pendiente,
    Enviada,
    Recibida,
    Cancelada,
}

/// The profile of a registered party. It never changes once created.
#[derive(Debug, PartialEq)]
pub struct Usuario {
    pub username: String,
    pub rol: Rol,
    pub account_id: AccountId,
}

/// A seller's catalog entry.
#[derive(Debug, PartialEq)]
pub struct Publicacion {
    /// The position of the listing in the catalog.
    pub id_publicacion: u64,
    pub nombre_producto: String,
    pub descripcion: String,
    pub precio: u64,
    pub categoria: Categoria,
    pub stock: u64,
    pub vendedor_id: AccountId,
}

/// An order: the listing as it stood right after the purchase, and the buyer.
#[derive(Debug, PartialEq)]
pub struct OrdenCompra {
    pub estado: Estado,
    pub publicacion: Publicacion,
    pub comprador_id: AccountId,
    pub peticion_cancelacion: bool,
}

impl Rol {
    /// Sellers are the parties with role `Vendedor` or `Ambos`.
    pub open spec fn puede_vender(self) -> bool {
        self != Rol::Comprador
    }

    /// Buyers are the parties with role `Comprador` or `Ambos`.
    pub open spec fn puede_comprar(self) -> bool {
        self != Rol::Vendedor
    }
}

impl Clone for Usuario {
    fn clone(&self) -> (r: Self)
        ensures
            r == *self,
    {
        Usuario { username: self.username.clone(), rol: self.rol, account_id: self.account_id }
    }
}

impl Clone for Publicacion {
    fn clone(&self) -> (r: Self)
        ensures
            r == *self,
    {
        Publicacion {
            id_publicacion: self.id_publicacion,
            nombre_producto: self.nombre_producto.clone(),
            descripcion: self.descripcion.clone(),
            precio: self.precio,
            categoria: self.categoria,
            stock: self.stock,
            vendedor_id: self.vendedor_id,
        }
    }
}

impl Clone for OrdenCompra {
    fn clone(&self) -> (r: Self)
        ensures
            r == *self,
    {
        OrdenCompra {
            estado: self.estado,
            publicacion: self.publicacion.clone(),
            comprador_id: self.comprador_id,
            peticion_cancelacion: self.peticion_cancelacion,
        }
    }
}

impl Usuario {
    /// The selling gate: `Ok(true)` for a seller, `UsuarioNoEsVendedor`
    /// otherwise.
    pub fn es_vendedor(&self) -> (r: Result<bool, ErrorSistema>)
        ensures
            r == if self.rol.puede_vender() {
                Ok::<bool, ErrorSistema>(true)
            } else {
                Err(ErrorSistema::UsuarioNoEsVendedor)
            },
    {
        match self.rol {
            Rol::Comprador => Err(ErrorSistema::UsuarioNoEsVendedor),
            _ => Ok(true),
        }
    }

    /// The buying gate: `Ok(true)` for a buyer, `UsuarioNoEsComprador`
    /// otherwise.
    pub fn es_comprador(&self) -> (r: Result<bool, ErrorSistema>)
        ensures
            r == if self.rol.puede_comprar() {
                Ok::<bool, ErrorSistema>(true)
            } else {
                Err(ErrorSistema::UsuarioNoEsComprador)
            },
    {
        match self.rol {
            Rol::Vendedor => Err(ErrorSistema::UsuarioNoEsComprador),
            _ => Ok(true),
        }
    }
}

impl Publicacion {
    /// A listing with exactly the given fields.
    pub fn new(
        id_publicacion: u64,
        nombre_producto: String,
        descripcion: String,
        precio: u64,
        categoria: Categoria,
        stock: u64,
        vendedor_id: AccountId,
    ) -> (r: Publicacion)
        ensures
            r == (Publicacion {
                id_publicacion,
                nombre_producto,
                descripcion,
                precio,
                categoria,
                stock,
                vendedor_id,
            }),
    {
        Publicacion {
            id_publicacion,
            nombre_producto,
            descripcion,
            precio,
            categoria,
            stock,
            vendedor_id,
        }
    }
}

} // verus!
