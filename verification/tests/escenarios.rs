use marketplace::{
    AccountId, Categoria, ErrorSistema, Estado, Marketplace, OrdenCompra, Publicacion, Rol,
    Usuario,
};

fn cuenta(byte: u8) -> AccountId {
    AccountId::from([byte; 32])
}

fn registrar(m: &mut Marketplace, id: AccountId, nombre: &str, rol: Rol) {
    assert!(m.registrar_usuario(id, nombre.to_string(), rol).is_ok());
}

fn publicar(m: &mut Marketplace, id: AccountId, nombre: &str, stock: u64) -> Publicacion {
    m.publicar(
        id,
        nombre.to_string(),
        "sin detalle".to_string(),
        100,
        Categoria::Herramientas,
        stock,
    )
    .unwrap()
}

#[test]
fn account_id_compara_todos_los_bytes() {
    let a = AccountId::from([7; 32]);
    let mut bytes = [7u8; 32];
    assert_eq!(a, AccountId::from(bytes));
    bytes[31] = 8;
    assert_ne!(a, AccountId::from(bytes));
    let mut otros = [7u8; 32];
    otros[0] = 0;
    assert_ne!(a, AccountId::from(otros));
    assert_eq!(a.0, [7u8; 32]);
}

#[test]
fn publicacion_new_guarda_cada_campo() {
    let p = Publicacion::new(
        4,
        "Taladro".to_string(),
        "600W".to_string(),
        85000,
        Categoria::Herramientas,
        3,
        cuenta(9),
    );
    assert_eq!(p.id_publicacion, 4);
    assert_eq!(p.nombre_producto, "Taladro");
    assert_eq!(p.descripcion, "600W");
    assert_eq!(p.precio, 85000);
    assert_eq!(p.categoria, Categoria::Herramientas);
    assert_eq!(p.stock, 3);
    assert_eq!(p.vendedor_id, cuenta(9));
    assert_eq!(p.clone(), p);
}

#[test]
fn compuertas_devuelven_el_error_de_su_rol() {
    let comprador = Usuario {
        username: "c".to_string(),
        rol: Rol::Comprador,
        account_id: cuenta(1),
    };
    let vendedor = Usuario {
        username: "v".to_string(),
        rol: Rol::Vendedor,
        account_id: cuenta(2),
    };
    let ambos = Usuario {
        username: "a".to_string(),
        rol: Rol::Ambos,
        account_id: cuenta(3),
    };
    assert_eq!(comprador.es_vendedor(), Err(ErrorSistema::UsuarioNoEsVendedor));
    assert_eq!(comprador.es_comprador(), Ok(true));
    assert_eq!(vendedor.es_vendedor(), Ok(true));
    assert_eq!(vendedor.es_comprador(), Err(ErrorSistema::UsuarioNoEsComprador));
    assert_eq!(ambos.es_vendedor(), Ok(true));
    assert_eq!(ambos.es_comprador(), Ok(true));
}

#[test]
fn registro_unico_conserva_el_primer_perfil() {
    let mut m = Marketplace::new();
    let p = cuenta(0x11);
    let primero = m.registrar_usuario(p, "ana".to_string(), Rol::Comprador);
    let esperado = Usuario { username: "ana".to_string(), rol: Rol::Comprador, account_id: p };
    assert_eq!(primero, Ok(esperado.clone()));
    let segundo = m.registrar_usuario(p, "otra".to_string(), Rol::Ambos);
    assert_eq!(segundo, Err(ErrorSistema::UsuarioYaRegistrado));
    assert_eq!(m.get_usuario(p), Ok(esperado));
    assert_eq!(m.get_usuario(cuenta(0x12)), Err(ErrorSistema::UsuarioNoRegistrado));
}

#[test]
fn comprador_no_publica_y_nada_cambia() {
    let mut m = Marketplace::new();
    let c = cuenta(1);
    registrar(&mut m, c, "c", Rol::Comprador);
    let r = m.publicar(c, "x".to_string(), "y".to_string(), 1, Categoria::Muebles, 1);
    assert_eq!(r, Err(ErrorSistema::UsuarioNoEsVendedor));
    assert_eq!(m.get_publicaciones(c), Ok(vec![]));
    assert_eq!(m.get_publicaciones_vendedor(c), Err(ErrorSistema::UsuarioNoEsVendedor));
}

#[test]
fn vendedor_no_ordena_y_nada_cambia() {
    let mut m = Marketplace::new();
    let v = cuenta(2);
    registrar(&mut m, v, "v", Rol::Vendedor);
    let p = publicar(&mut m, v, "Silla", 5);
    assert_eq!(m.ordenar_compra(v, 0), Err(ErrorSistema::UsuarioNoEsComprador));
    assert_eq!(m.get_publicaciones(v), Ok(vec![p]));
    assert_eq!(m.get_ordenes(v), Ok(vec![]));
    assert_eq!(m.get_ordenes_comprador(v), Err(ErrorSistema::UsuarioNoEsComprador));
}

#[test]
fn ambos_pasa_las_dos_compuertas() {
    let mut m = Marketplace::new();
    let a = cuenta(3);
    registrar(&mut m, a, "a", Rol::Ambos);
    let p = publicar(&mut m, a, "Mesa", 2);
    let o = m.ordenar_compra(a, 0).unwrap();
    assert_eq!(o.comprador_id, a);
    assert_eq!(o.publicacion.vendedor_id, a);
    assert_eq!(p.vendedor_id, a);
    assert_eq!(m.get_publicaciones_vendedor(a).unwrap().len(), 1);
    assert_eq!(m.get_ordenes_comprador(a).unwrap().len(), 1);
}

#[test]
fn el_id_es_la_posicion_en_el_catalogo() {
    let mut m = Marketplace::new();
    let a = cuenta(1);
    let b = cuenta(2);
    registrar(&mut m, a, "a", Rol::Vendedor);
    registrar(&mut m, b, "b", Rol::Ambos);
    for esperado in 0..6u64 {
        let antes = m.get_publicaciones(a).unwrap().len() as u64;
        let quien = if esperado % 2 == 0 { a } else { b };
        let p = publicar(&mut m, quien, "cosa", esperado + 1);
        assert_eq!(p.id_publicacion, antes);
        assert_eq!(p.id_publicacion, esperado);
        let catalogo = m.get_publicaciones(a).unwrap();
        assert_eq!(catalogo.len() as u64, esperado + 1);
        assert_eq!(catalogo[esperado as usize], p);
    }
    let catalogo = m.get_publicaciones(b).unwrap();
    for (i, p) in catalogo.iter().enumerate() {
        assert_eq!(p.id_publicacion, i as u64);
    }
}

#[test]
fn el_stock_baja_uno_por_orden_y_se_queda_en_cero() {
    let mut m = Marketplace::new();
    let v = cuenta(1);
    let c = cuenta(2);
    registrar(&mut m, v, "v", Rol::Vendedor);
    registrar(&mut m, c, "c", Rol::Comprador);
    publicar(&mut m, v, "Otra", 9);
    publicar(&mut m, v, "Lampara", 3);
    for n in 1..=3u64 {
        let o = m.ordenar_compra(c, 1).unwrap();
        assert_eq!(o.publicacion.stock, 3 - n);
        assert_eq!(m.get_publicaciones(c).unwrap()[1].stock, 3 - n);
        assert_eq!(m.get_publicaciones(c).unwrap()[0].stock, 9);
    }
    assert_eq!(m.ordenar_compra(c, 1), Err(ErrorSistema::PublicacionSinStock));
    assert_eq!(m.get_publicaciones(c).unwrap()[1].stock, 0);
    assert_eq!(m.get_ordenes(c).unwrap().len(), 3);
    assert_eq!(m.get_ordenes_comprador(c).unwrap().len(), 3);
}

#[test]
fn cada_vendedor_ve_solo_lo_suyo_en_orden() {
    let mut m = Marketplace::new();
    let a = cuenta(1);
    let b = cuenta(2);
    let c = cuenta(3);
    registrar(&mut m, a, "a", Rol::Vendedor);
    registrar(&mut m, b, "b", Rol::Ambos);
    registrar(&mut m, c, "c", Rol::Vendedor);
    let p0 = publicar(&mut m, a, "a0", 1);
    let p1 = publicar(&mut m, b, "b0", 4);
    let p2 = publicar(&mut m, a, "a1", 1);
    let p3 = publicar(&mut m, a, "a2", 1);
    let p4 = publicar(&mut m, b, "b1", 1);
    assert_eq!(m.get_publicaciones_vendedor(a), Ok(vec![p0.clone(), p2.clone(), p3.clone()]));
    assert_eq!(m.get_publicaciones_vendedor(b), Ok(vec![p1.clone(), p4.clone()]));
    assert_eq!(m.get_publicaciones_vendedor(c), Ok(vec![]));
    assert_eq!(m.get_publicaciones(c), Ok(vec![p0, p1.clone(), p2, p3, p4.clone()]));

    let o = m.ordenar_compra(b, 1).unwrap();
    let mut p1_despues = p1;
    p1_despues.stock = 3;
    assert_eq!(o.publicacion, p1_despues);
    assert_eq!(m.get_publicaciones_vendedor(b), Ok(vec![p1_despues, p4]));
}

#[test]
fn cada_comprador_ve_solo_sus_ordenes_en_orden() {
    let mut m = Marketplace::new();
    let v = cuenta(1);
    let x = cuenta(2);
    let y = cuenta(3);
    registrar(&mut m, v, "v", Rol::Vendedor);
    registrar(&mut m, x, "x", Rol::Comprador);
    registrar(&mut m, y, "y", Rol::Ambos);
    publicar(&mut m, v, "uno", 10);
    publicar(&mut m, v, "dos", 10);
    let o0 = m.ordenar_compra(x, 0).unwrap();
    let o1 = m.ordenar_compra(y, 0).unwrap();
    let o2 = m.ordenar_compra(x, 1).unwrap();
    let o3 = m.ordenar_compra(x, 0).unwrap();
    assert_eq!(o0.publicacion.stock, 9);
    assert_eq!(o1.publicacion.stock, 8);
    assert_eq!(o2.publicacion.stock, 9);
    assert_eq!(o3.publicacion.stock, 7);
    assert_eq!(m.get_ordenes_comprador(x), Ok(vec![o0.clone(), o2.clone(), o3.clone()]));
    assert_eq!(m.get_ordenes_comprador(y), Ok(vec![o1.clone()]));
    assert_eq!(m.get_ordenes(v), Ok(vec![o0, o1, o2, o3]));
}

#[test]
fn la_orden_guarda_la_publicacion_como_quedo() {
    let mut m = Marketplace::new();
    let a = cuenta(1);
    registrar(&mut m, a, "a", Rol::Ambos);
    let p = publicar(&mut m, a, "Teclado", 2);
    let primera = m.ordenar_compra(a, 0).unwrap();
    let esperada = OrdenCompra {
        estado: Estado::Pendiente,
        publicacion: Publicacion::new(
            0,
            p.nombre_producto.clone(),
            p.descripcion.clone(),
            p.precio,
            p.categoria,
            1,
            a,
        ),
        comprador_id: a,
        peticion_cancelacion: false,
    };
    assert_eq!(primera, esperada);
    let _ = m.ordenar_compra(a, 0).unwrap();
    assert_eq!(m.get_ordenes(a).unwrap()[0], esperada);
    assert_eq!(m.get_publicaciones(a).unwrap()[0].stock, 0);
}

#[test]
fn los_rechazos_siguen_el_orden_de_las_comprobaciones() {
    let mut m = Marketplace::new();
    let v = cuenta(1);
    let c = cuenta(2);
    let nadie = cuenta(3);
    registrar(&mut m, v, "v", Rol::Vendedor);
    registrar(&mut m, c, "c", Rol::Comprador);
    publicar(&mut m, v, "agotado", 0);
    assert_eq!(m.ordenar_compra(nadie, 7), Err(ErrorSistema::UsuarioNoRegistrado));
    assert_eq!(m.ordenar_compra(v, 7), Err(ErrorSistema::UsuarioNoEsComprador));
    assert_eq!(m.ordenar_compra(c, 7), Err(ErrorSistema::PublicacionNoExistente));
    assert_eq!(m.ordenar_compra(c, 1), Err(ErrorSistema::PublicacionNoExistente));
    assert_eq!(m.ordenar_compra(c, u32::MAX), Err(ErrorSistema::PublicacionNoExistente));
    assert_eq!(m.ordenar_compra(c, 0), Err(ErrorSistema::PublicacionSinStock));
    assert_eq!(m.get_ordenes(c), Ok(vec![]));
    assert_eq!(m.get_publicaciones(c).unwrap()[0].stock, 0);
    assert_eq!(m.get_publicaciones(nadie), Err(ErrorSistema::UsuarioNoRegistrado));
    assert_eq!(m.get_ordenes(nadie), Err(ErrorSistema::UsuarioNoRegistrado));
    assert_eq!(m.get_ordenes_comprador(nadie), Err(ErrorSistema::UsuarioNoRegistrado));
}

#[test]
fn libros_separados_no_se_mezclan() {
    let mut uno = Marketplace::new();
    let dos = Marketplace::new();
    let a = cuenta(1);
    registrar(&mut uno, a, "a", Rol::Ambos);
    assert!(uno.get_usuario(a).is_ok());
    assert_eq!(dos.get_usuario(a), Err(ErrorSistema::UsuarioNoRegistrado));
}

#[test]
fn escenario_alice_y_bob() {
    let mut m = Marketplace::new();
    let alice = cuenta(0xA1);
    let bob = cuenta(0xB0);
    registrar(&mut m, alice, "alice", Rol::Ambos);
    let shirt = m
        .publicar(alice, "Shirt".to_string(), "cotton".to_string(), 12000, Categoria::Ropa, 20)
        .unwrap();
    assert_eq!(shirt.id_publicacion, 0);
    assert_eq!(shirt.stock, 20);
    assert_eq!(shirt.precio, 12000);
    registrar(&mut m, bob, "bob", Rol::Ambos);

    let orden = m.ordenar_compra(bob, 0).unwrap();
    assert_eq!(orden.publicacion.stock, 19);
    assert_eq!(orden.estado, Estado::Pendiente);
    assert_eq!(orden.comprador_id, bob);
    assert_eq!(orden.peticion_cancelacion, false);
    let propias = m.get_publicaciones_vendedor(alice).unwrap();
    assert_eq!(propias.len(), 1);
    assert_eq!(propias[0].id_publicacion, 0);
    assert_eq!(propias[0].stock, 19);
    assert_eq!(m.get_ordenes_comprador(bob), Ok(vec![orden]));

    for restante in (0..19u64).rev() {
        let o = m.ordenar_compra(bob, 0).unwrap();
        assert_eq!(o.publicacion.stock, restante);
    }
    assert_eq!(m.ordenar_compra(bob, 0), Err(ErrorSistema::PublicacionSinStock));
    assert_eq!(m.get_publicaciones(bob).unwrap()[0].stock, 0);
    assert_eq!(m.get_ordenes_comprador(bob).unwrap().len(), 20);
}
