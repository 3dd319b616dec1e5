use marketplace::{AccountId, ErrorSistema, Marketplace, Rol, Usuario};

#[test]
fn tests_es_vendedor_true_vendedor() {
    let usuario = Usuario {
        account_id: AccountId::from([0xAA; 32]),
        username: "agustin22".to_string(),
        rol: Rol::Vendedor,
    };

    assert_eq!(usuario.es_vendedor().is_ok(), true);
}

#[test]
fn tests_es_vendedor_true_ambos() {
    let usuario = Usuario {
        account_id: AccountId::from([0xAA; 32]),
        username: "agustin22".to_string(),
        rol: Rol::Ambos,
    };

    assert_eq!(usuario.es_vendedor().is_ok(), true);
}

#[test]
fn tests_es_vendedor_false() {
    let usuario = Usuario {
        account_id: AccountId::from([0xAA; 32]),
        username: "agustin22".to_string(),
        rol: Rol::Comprador,
    };

    assert_eq!(usuario.es_vendedor().is_ok(), false);
}

#[test]
fn tests_es_comprador_true_comprador() {
    let usuario = Usuario {
        account_id: AccountId::from([0xAA; 32]),
        username: "agustin22".to_string(),
        rol: Rol::Comprador,
    };

    assert_eq!(usuario.es_comprador().is_ok(), true);
}

#[test]
fn tests_es_comprador_true_ambos() {
    let usuario = Usuario {
        account_id: AccountId::from([0xAA; 32]),
        username: "agustin22".to_string(),
        rol: Rol::Ambos,
    };

    assert_eq!(usuario.es_comprador().is_ok(), true);
}

#[test]
fn tests_es_comprador_false() {
    let usuario = Usuario {
        account_id: AccountId::from([0xAA; 32]),
        username: "agustin22".to_string(),
        rol: Rol::Vendedor,
    };

    assert_eq!(usuario.es_comprador().is_ok(), false);
}

#[test]
fn tests_registrar_usuario_no_registrado() {
    let mut marketplace = Marketplace::new();

    let caller = AccountId::from([0xAA; 32]);
    let username = "agustin".to_string();
    let rol = Rol::Ambos;

    assert_eq!(
        marketplace
            .registrar_usuario(caller, username, rol)
            .is_ok(),
        true
    );
}

#[test]
fn tests_registrar_usuario_ya_registrado_error() {
    let mut marketplace = Marketplace::new();

    let caller = AccountId::from([0xAA; 32]);
    let username = "agustin".to_string();
    let rol = Rol::Ambos;

    assert_eq!(
        marketplace
            .registrar_usuario(caller.clone(), username.clone(), rol.clone())
            .is_ok(),
        true
    );

    let result = marketplace.registrar_usuario(caller, username, rol);

    assert_eq!(result, Err(ErrorSistema::UsuarioYaRegistrado));
}

#[test]
fn tests_get_usuario_encontrado() {
    let mut marketplace = Marketplace::new();

    let caller = AccountId::from([0xAA; 32]);
    let username = "agustin".to_string();
    let rol = Rol::Ambos;

    let _ = marketplace.registrar_usuario(caller, username, rol);

    assert_eq!(marketplace.get_usuario(caller).is_ok(), true);
}

#[test]
fn tests_get_usuario_no_encontrado() {
    let mut marketplace = Marketplace::new();

    let caller = AccountId::from([0xAA; 32]);

    let result = marketplace.get_usuario(caller);

    assert_eq!(result, Err(ErrorSistema::UsuarioNoRegistrado));
}
