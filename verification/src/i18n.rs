//! Lightweight i18n: a string dictionary keyed by the UI language.
//!
//! Keys are the English strings themselves. New strings added to the UI must
//! be added to the Brazilian Portuguese dictionary so the translator knows
//! about them; an untranslated key falls back to the English value, the key
//! itself.

use vstd::prelude::*;
use crate::text::str_eq;

verus! {

/// Languages the UI can be displayed in.
#[derive(Debug, Clone, Copy, PartialEq, Eq, Structural)]
pub enum Language {
    /// English (default).
    En,
    /// Brazilian Portuguese.
    PtBr,
}

/// The name of a language in the language picker.
pub open spec fn language_label_spec(lang: Language) -> Seq<char> {
    match lang {
        Language::En => "English"@,
        Language::PtBr => "Portugu\u{00EA}s (BR)"@,
    }
}

/// The persisted string form of a language.
pub open spec fn language_str_spec(lang: Language) -> Seq<char> {
    match lang {
        Language::En => "en"@,
        Language::PtBr => "pt-BR"@,
    }
}

/// The language a persisted string names; anything unknown is English.
pub open spec fn language_from_str_spec(s: Seq<char>) -> Language {
    if s == "pt-BR"@ {
        Language::PtBr
    } else {
        Language::En
    }
}

impl Language {
    /// Human-readable label for the language picker.
    pub fn label(self) -> (s: &'static str)
        ensures
            s@ == language_label_spec(self),
    {
        match self {
            Language::En => "English",
            Language::PtBr => "Portugu\u{00EA}s (BR)",
        }
    }

    /// The persisted string form, mirroring the serialized name.
    pub fn as_str(self) -> (s: &'static str)
        ensures
            s@ == language_str_spec(self),
    {
        match self {
            Language::En => "en",
            Language::PtBr => "pt-BR",
        }
    }

    /// Parse the persisted string form; anything unknown falls back to English.
    pub fn from_str(s: &str) -> (lang: Language)
        ensures
            lang == language_from_str_spec(s@),
    {
        if str_eq(s, "pt-BR") {
            Language::PtBr
        } else {
            Language::En
        }
    }
}

impl Default for Language {
    fn default() -> (lang: Language)
        ensures
            lang == Language::En,
    {
        Language::En
    }
}

/// Reading back the persisted form of a language gives the language.
pub proof fn lemma_language_str_round_trip(lang: Language)
    ensures
        language_from_str_spec(language_str_spec(lang)) == lang,
{
    reveal_strlit("en");
    reveal_strlit("pt-BR");
    assert("en"@.len() != "pt-BR"@.len());
}

/// Part 0 of the Brazilian Portuguese dictionary, in lookup order.
pub open spec fn pt_br_part_0(key: Seq<char>) -> Option<Seq<char>> {
    if key == "Accounts"@ {
        Some("Contas"@)
    } else if key == "Private Servers"@ {
        Some("Servidores Privados"@)
    } else if key == "Presets"@ {
        Some("Predefini\u{00E7}\u{00F5}es"@)
    } else if key == "Settings"@ {
        Some("Configura\u{00E7}\u{00F5}es"@)
    } else if key == "Stats"@ {
        Some("Estat\u{00ED}sticas"@)
    } else if key == "Games"@ {
        Some("Jogos"@)
    } else if key == "Refresh"@ {
        Some("Atualizar"@)
    } else if key == "Search games\u{2026}"@ {
        Some("Buscar jogos\u{2026}"@)
    } else if key == "Popular"@ {
        Some("Populares"@)
    } else if key == "Top Rated"@ {
        Some("Melhor Avaliados"@)
    } else if key == "Top Earning"@ {
        Some("Mais Rent\u{00E1}veis"@)
    } else if key == "No games found for that search."@ {
        Some("Nenhum jogo encontrado para essa busca."@)
    } else if key == "Search results ({} game)"@ {
        Some("Resultado da busca ({} jogo)"@)
    } else if key == "Search results ({} games)"@ {
        Some("Resultados da busca ({} jogos)"@)
    } else if key == "Remove from favorites"@ {
        Some("Remover dos favoritos"@)
    } else if key == "Add to favorites"@ {
        Some("Adicionar aos favoritos"@)
    } else if key == "Copy Place ID {}"@ {
        Some("Copiar Place ID {}"@)
    } else if key == "Loading games\u{2026}"@ {
        Some("Carregando jogos\u{2026}"@)
    } else if key == "Re-fetch all game feeds"@ {
        Some("Recarregar todas as listas"@)
    } else if key == "Check your connection, then try Refresh."@ {
        Some("Verifique sua conex\u{00E3}o e tente Atualizar."@)
    } else if key == "Statistics"@ {
        Some("Estat\u{00ED}sticas"@)
    } else if key == "Add some accounts to see statistics here."@ {
        Some("Adicione contas para ver estat\u{00ED}sticas aqui."@)
    } else if key == "Presence"@ {
        Some("Presen\u{00E7}a"@)
    } else if key == "Total"@ {
        Some("Total"@)
    } else if key == "Online"@ {
        Some("Online"@)
    } else {
        None
    }
}

/// Part 1 of the Brazilian Portuguese dictionary, in lookup order.
pub open spec fn pt_br_part_1(key: Seq<char>) -> Option<Seq<char>> {
    if key == "In Game"@ {
        Some("No Jogo"@)
    } else if key == "In Studio"@ {
        Some("No Studio"@)
    } else if key == "Offline"@ {
        Some("Offline"@)
    } else if key == "Moderated"@ {
        Some("Moderadas"@)
    } else if key == "Cookie Expired"@ {
        Some("Cookie Expirado"@)
    } else if key == "Roblox clients running:"@ {
        Some("Roblox em execu\u{00E7}\u{00E3}o:"@)
    } else if key == "Accounts by Group"@ {
        Some("Contas por Grupo"@)
    } else if key == "Split of accounts by current status"@ {
        Some("Divis\u{00E3}o das contas por status atual"@)
    } else if key == "{}/{} online"@ {
        Some("{}/{} online"@)
    } else if key == "Every account in RM"@ {
        Some("Todas as contas do RM"@)
    } else if key == "Accounts with a running Roblox client"@ {
        Some("Contas com Roblox em execu\u{00E7}\u{00E3}o"@)
    } else if key == "Accounts currently in a Roblox game"@ {
        Some("Contas atualmente em um jogo Roblox"@)
    } else if key == "Accounts open in Roblox Studio"@ {
        Some("Contas abertas no Roblox Studio"@)
    } else if key == "Accounts with no Roblox client running"@ {
        Some("Contas sem Roblox em execu\u{00E7}\u{00E3}o"@)
    } else if key == "Accounts with an active moderation/termination"@ {
        Some("Contas com modera\u{00E7}\u{00E3}o/termina\u{00E7}\u{00E3}o ativa"@)
    } else if key == "Accounts whose cookie no longer validates"@ {
        Some("Contas cujo cookie n\u{00E3}o valida mais"@)
    } else if key == "Launch"@ {
        Some("Lan\u{00E7}ar"@)
    } else if key == "Enter a place ID to launch this account"@ {
        Some("Insira um Place ID para lan\u{00E7}ar esta conta"@)
    } else if key == "Place ID"@ {
        Some("Place ID"@)
    } else if key == "Job ID (optional)"@ {
        Some("Job ID (opcional)"@)
    } else if key == "Specific server GUID"@ {
        Some("GUID do servidor espec\u{00ED}fico"@)
    } else if key == "Details"@ {
        Some("Detalhes"@)
    } else if key == "Alias"@ {
        Some("Apelido"@)
    } else if key == "Group"@ {
        Some("Grupo"@)
    } else if key == "Validated"@ {
        Some("Validado"@)
    } else {
        None
    }
}

/// Part 2 of the Brazilian Portuguese dictionary, in lookup order.
pub open spec fn pt_br_part_2(key: Seq<char>) -> Option<Seq<char>> {
    if key == "Location"@ {
        Some("Localiza\u{00E7}\u{00E3}o"@)
    } else if key == "Notes"@ {
        Some("Anota\u{00E7}\u{00F5}es"@)
    } else if key == "Saved automatically when you click away."@ {
        Some("Salvo automaticamente ao clicar fora."@)
    } else if key == "Add notes about this account (origin, password hints, role\u{2026})"@ {
        Some("Anota\u{00E7}\u{00F5}es sobre esta conta (origem, dicas de senha, fun\u{00E7}\u{00E3}o\u{2026})"@)
    } else if key == "Cookie expired. Remove and re-add this account with a fresh cookie."@ {
        Some("Cookie expirado. Remova e adicione esta conta novamente com um cookie novo."@)
    } else if key == "Remove account"@ {
        Some("Remover conta"@)
    } else if key == "More actions"@ {
        Some("Mais a\u{00E7}\u{00F5}es"@)
    } else if key == "Open a webview signed in as this account"@ {
        Some("Abrir navegador logado como esta conta"@)
    } else if key == "Open browser as"@ {
        Some("Abrir como"@)
    } else if key == "Save these inputs as a launch preset"@ {
        Some("Salvar estes dados como predefini\u{00E7}\u{00E3}o de lan\u{00E7}amento"@)
    } else if key == "Save as preset"@ {
        Some("Salvar como predefini\u{00E7}\u{00E3}o"@)
    } else if key == "Save"@ {
        Some("Salvar"@)
    } else if key == "Cancel"@ {
        Some("Cancelar"@)
    } else if key == "Preset name"@ {
        Some("Nome da predefini\u{00E7}\u{00E3}o"@)
    } else if key == "Kill all running Roblox instances"@ {
        Some("Encerrar todas as inst\u{00E2}ncias do Roblox"@)
    } else if key == "Enter a Place ID to launch"@ {
        Some("Insira um Place ID para lan\u{00E7}ar"@)
    } else if key == "Launch this account into the chosen place"@ {
        Some("Lan\u{00E7}ar esta conta no jogo escolhido"@)
    } else if key == "Storage"@ {
        Some("Armazenamento"@)
    } else if key == "Launch Behavior"@ {
        Some("Comportamento de Lan\u{00E7}amento"@)
    } else if key == "Use Windows Credential Manager (instead of encrypted file)"@ {
        Some("Usar o Gerenciador de Credenciais do Windows (em vez de arquivo criptografado)"@)
    } else if key == "Enable multi-instance"@ {
        Some("Habilitar multi-inst\u{00E2}ncia"@)
    } else if key == "Close all Roblox processes (including tray) before enabling."@ {
        Some("Feche todos os processos do Roblox (incluindo a bandeja) antes de habilitar."@)
    } else if key == "Kill Roblox tray/background processes automatically"@ {
        Some("Encerrar processos de bandeja/fundo do Roblox automaticamente"@)
    } else if key == "Kills idle \"always running\" Roblox processes (--launch-to-tray)."@ {
        Some("Encerra processos Roblox \"sempre em execu\u{00E7}\u{00E3}o\" ociosos (--launch-to-tray)."@)
    } else if key == "Auto-arrange Roblox windows after launch"@ {
        Some("Organizar janelas do Roblox automaticamente ap\u{00F3}s o lan\u{00E7}amento"@)
    } else {
        None
    }
}

/// Part 3 of the Brazilian Portuguese dictionary, in lookup order.
pub open spec fn pt_br_part_3(key: Seq<char>) -> Option<Seq<char>> {
    if key == "Tiles Roblox windows in a grid (2 = side-by-side, 4 = 2\u{00D7}2, etc.)."@ {
        Some("Organiza as janelas do Roblox em grade (2 = lado a lado, 4 = 2\u{00D7}2, etc.)."@)
    } else if key == "Name Roblox windows after their account"@ {
        Some("Nomear janelas do Roblox pelo nome da conta"@)
    } else if key == "Window titles are readable by any program, and show up in screenshots and streams."@ {
        Some("Os t\u{00ED}tulos das janelas s\u{00E3}o leg\u{00ED}veis por qualquer programa e aparecem em capturas e transmiss\u{00F5}es."@)
    } else if key == "Launch delay:"@ {
        Some("Atraso de lan\u{00E7}amento:"@)
    } else if key == "Minimum gap between account launches. Applies to single and bulk launches. 0 disables throttling."@ {
        Some("Intervalo m\u{00ED}nimo entre lan\u{00E7}amentos de contas. Aplica-se a lan\u{00E7}amentos \u{00FA}nicos e em massa. 0 desativa a limita\u{00E7}\u{00E3}o."@)
    } else if key == "Privacy"@ {
        Some("Privacidade"@)
    } else if key == "Clear RobloxCookies.dat before each launch"@ {
        Some("Limpar RobloxCookies.dat antes de cada lan\u{00E7}amento"@)
    } else if key == "Prevents Roblox from associating your accounts via stored cookies."@ {
        Some("Impede que o Roblox associe suas contas por meio de cookies armazenados."@)
    } else if key == "Anonymize account names"@ {
        Some("Anonimizar nomes de contas"@)
    } else if key == "Replaces usernames and display names with generic \"Account 1\", \"Account 2\", etc."@ {
        Some("Substitui nomes de usu\u{00E1}rio e nomes de exibi\u{00E7}\u{00E3}o por gen\u{00E9}ricos como \"Conta 1\", \"Conta 2\", etc."@)
    } else if key == "Developer Options"@ {
        Some("Op\u{00E7}\u{00F5}es de Desenvolvedor"@)
    } else if key == "Show the Asset Manager tab"@ {
        Some("Mostrar a aba Gerenciador de Assets"@)
    } else if key == "Upload assets to Roblox from any saved account, track moderation, and grant experiences permission to use them."@ {
        Some("Envie assets para o Roblox de qualquer conta salva, acompanhe a modera\u{00E7}\u{00E3}o e conceda permiss\u{00F5}es para experi\u{00EA}ncias usarem."@)
    } else if key == "Roblox Player Path"@ {
        Some("Caminho do Roblox Player"@)
    } else if key == "Leave empty for auto-detect:"@ {
        Some("Deixe vazio para detectar automaticamente:"@)
    } else if key == "Backup & Transfer"@ {
        Some("Backup e Transfer\u{00EA}ncia"@)
    } else if key == "Export your accounts to a portable file. Cookies are included in plaintext, so treat the file like a password manager backup."@ {
        Some("Exporte suas contas para um arquivo port\u{00E1}til. Os cookies est\u{00E3}o em texto puro, ent\u{00E3}o trate o arquivo como um backup de gerenciador de senhas."@)
    } else if key == "Export accounts\u{2026}"@ {
        Some("Exportar contas\u{2026}"@)
    } else if key == "Import accounts\u{2026}"@ {
        Some("Importar contas\u{2026}"@)
    } else if key == "Language"@ {
        Some("Idioma"@)
    } else if key == "English"@ {
        Some("English"@)
    } else if key == "Portugu\u{00EA}s (BR)"@ {
        Some("Portugu\u{00EA}s (BR)"@)
    } else if key == "Encryption"@ {
        Some("Criptografia"@)
    } else if key == "Accounts are encrypted with your master password."@ {
        Some("As contas s\u{00E3}o criptografadas com sua senha mestra."@)
    } else if key == "RM asks for it every time it starts. If you forget it, the accounts cannot be recovered."@ {
        Some("O RM pede a senha sempre que inicia. Se voc\u{00EA} esquec\u{00EA}-la, as contas n\u{00E3}o podem ser recuperadas."@)
    } else {
        None
    }
}

/// Part 4 of the Brazilian Portuguese dictionary, in lookup order.
pub open spec fn pt_br_part_4(key: Seq<char>) -> Option<Seq<char>> {
    if key == "Accounts are encrypted and unlock automatically on this PC."@ {
        Some("As contas s\u{00E3}o criptografadas e desbloqueiam automaticamente neste PC."@)
    } else if key == "The key is held in Windows Credential Manager, so the file is useless on its own. Anything running as you can still read it."@ {
        Some("A chave fica no Gerenciador de Credenciais do Windows, ent\u{00E3}o o arquivo sozinho n\u{00E3}o vale nada. Qualquer programa rodando como voc\u{00EA} ainda pode l\u{00EA}-lo."@)
    } else if key == "Change your master password:"@ {
        Some("Alterar sua senha mestra:"@)
    } else if key == "Require a master password at startup:"@ {
        Some("Exigir senha mestra na inicializa\u{00E7}\u{00E3}o:"@)
    } else if key == "New password"@ {
        Some("Nova senha"@)
    } else if key == "Confirm password"@ {
        Some("Confirmar senha"@)
    } else if key == "Passwords do not match."@ {
        Some("As senhas n\u{00E3}o coincidem."@)
    } else if key == "Stop asking for a password"@ {
        Some("Parar de pedir a senha"@)
    } else if key == "Save Settings"@ {
        Some("Salvar Configura\u{00E7}\u{00F5}es"@)
    } else if key == "Change password"@ {
        Some("Alterar senha"@)
    } else if key == "Set password"@ {
        Some("Definir senha"@)
    } else if key == "RM asks for it every time it starts. If you forget it, the accounts cannot be recovered."@ {
        Some("O RM pede a senha sempre que inicia. Se voc\u{00EA} esquec\u{00EA}-la, as contas n\u{00E3}o podem ser recuperadas."@)
    } else if key == "The key is held in Windows Credential Manager, so the file is useless on its own. Anything running as you can still read it."@ {
        Some("A chave fica no Gerenciador de Credenciais do Windows, ent\u{00E3}o o arquivo sozinho n\u{00E3}o vale nada. Qualquer programa rodando como voc\u{00EA} ainda pode l\u{00EA}-lo."@)
    } else if key == "Renames each launched Roblox window to the account's alias, so tiled windows are tellable apart.\n\nOff by default. This writes to the Roblox window rather than just reading it, and how Hyperion treats that is not documented. It also changes what capture software matching on window title will find."@ {
        Some("Renomeia cada janela do Roblox lan\u{00E7}ada para o apelido da conta, para que as janelas organizadas sejam distingu\u{00ED}veis.\n\nDesativado por padr\u{00E3}o. Isso grava na janela do Roblox, em vez de apenas l\u{00EA}-la, e como o Hyperion trata isso n\u{00E3}o \u{00E9} documentado. Tamb\u{00E9}m altera o que o software de captura que usa o t\u{00ED}tulo da janela encontrar\u{00E1}."@)
    } else if key == "\u{26a0} Uploads are permanent and public. Every asset is moderated under the account that uploaded it."@ {
        Some("\u{26a0} Os uploads s\u{00E3}o permanentes e p\u{00FA}blicos. Cada asset \u{00E9} moderado na conta que o enviou."@)
    } else if key == "(Roblox rate-limits some IPs)"@ {
        Some("(o Roblox limita algumas IPs)"@)
    } else if key == "\u{26a0} This interacts with Hyperion anti-cheat and may carry ban risk."@ {
        Some("\u{26a0} Isso interage com o anti-cheat Hyperion e pode trazer risco de banimento."@)
    } else if key == "\u{26a0} Recommended when multi-instance is enabled. Tray processes stack up."@ {
        Some("\u{26a0} Recomendado quando a multi-inst\u{00E2}ncia est\u{00E1} habilitada. Processos de bandeja se acumulam."@)
    } else if key == "{} Accounts Selected"@ {
        Some("{} Contas Selecionadas"@)
    } else if key == "Clear selection"@ {
        Some("Limpar sele\u{00E7}\u{00E3}o"@)
    } else if key == "Bulk Launch"@ {
        Some("Lan\u{00E7}amento em Massa"@)
    } else if key == "All selected accounts will join the same server sequentially."@ {
        Some("Todas as contas selecionadas entrar\u{00E3}o no mesmo servidor, em sequ\u{00EA}ncia."@)
    } else if key == "Launch {} Accounts"@ {
        Some("Lan\u{00E7}ar {} Contas"@)
    } else if key == "Kill All Instances"@ {
        Some("Encerrar Todas as Inst\u{00E2}ncias"@)
    } else if key == "Account {}"@ {
        Some("Conta {}"@)
    } else {
        None
    }
}

/// Part 5 of the Brazilian Portuguese dictionary, in lookup order.
pub open spec fn pt_br_part_5(key: Seq<char>) -> Option<Seq<char>> {
    if key == "Launch all"@ {
        Some("Lan\u{00E7}ar todos"@)
    } else if key == "Kill all"@ {
        Some("Encerrar todos"@)
    } else if key == "Place ID:"@ {
        Some("Place ID:"@)
    } else if key == "Job ID (optional):"@ {
        Some("Job ID (opcional):"@)
    } else if key == "Edit Preset"@ {
        Some("Editar Predefini\u{00E7}\u{00E3}o"@)
    } else if key == "New Preset"@ {
        Some("Nova Predefini\u{00E7}\u{00E3}o"@)
    } else if key == "Reload"@ {
        Some("Recarregar"@)
    } else if key == "Re-scan the presets folder for new or removed presets"@ {
        Some("Revarrer a pasta de predefini\u{00E7}\u{00F5}es em busca de novas ou removidas"@)
    } else if key == "Open folder"@ {
        Some("Abrir pasta"@)
    } else if key == "Reveal the presets folder in Explorer"@ {
        Some("Revelar a pasta de predefini\u{00E7}\u{00F5}es no Explorer"@)
    } else if key == "Name:"@ {
        Some("Nome:"@)
    } else if key == "e.g. Adopt Me"@ {
        Some("ex.: Adopt Me"@)
    } else if key == "e.g. 920587237"@ {
        Some("ex.: 920587237"@)
    } else if key == "Save changes"@ {
        Some("Salvar altera\u{00E7}\u{00F5}es"@)
    } else if key == "+ Add Preset"@ {
        Some("+ Adicionar Predefini\u{00E7}\u{00E3}o"@)
    } else if key == "Place ID must be a number."@ {
        Some("O Place ID deve ser um n\u{00FA}mero."@)
    } else if key == "Saved Presets"@ {
        Some("Predefini\u{00E7}\u{00F5}es Salvas"@)
    } else if key == "No presets yet. Create one above to launch favorite games faster."@ {
        Some("Nenhuma predefini\u{00E7}\u{00E3}o ainda. Crie uma acima para lan\u{00E7}ar jogos favoritos mais r\u{00E1}pido."@)
    } else if key == "Delete"@ {
        Some("Excluir"@)
    } else if key == "Edit"@ {
        Some("Editar"@)
    } else if key == "Place {}, Job {}"@ {
        Some("Place {}, Job {}"@)
    } else if key == "Place {}"@ {
        Some("Place {}"@)
    } else if key == "Search accounts\u{2026}"@ {
        Some("Buscar contas\u{2026}"@)
    } else if key == "Add Account"@ {
        Some("Adicionar Conta"@)
    } else if key == "{} selected"@ {
        Some("{} selecionadas"@)
    } else {
        None
    }
}

/// Part 6 of the Brazilian Portuguese dictionary, in lookup order.
pub open spec fn pt_br_part_6(key: Seq<char>) -> Option<Seq<char>> {
    if key == "Preset saved"@ {
        Some("Predefini\u{00E7}\u{00E3}o salva"@)
    } else if key == "Preset deleted"@ {
        Some("Predefini\u{00E7}\u{00E3}o exclu\u{00ED}da"@)
    } else if key == "Save failed: {e}"@ {
        Some("Falha ao salvar: {e}"@)
    } else if key == "Delete failed: {e}"@ {
        Some("Falha ao excluir: {e}"@)
    } else if key == "Settings saved"@ {
        Some("Configura\u{00E7}\u{00F5}es salvas"@)
    } else if key == "Game launched"@ {
        Some("Jogo lan\u{00E7}ado"@)
    } else if key == "Copied to clipboard"@ {
        Some("Copiado para a \u{00E1}rea de transfer\u{00EA}ncia"@)
    } else if key == "Refreshing all accounts\u{2026}"@ {
        Some("Atualizando todas as contas\u{2026}"@)
    } else if key == "Could not create folder: {e}"@ {
        Some("N\u{00E3}o foi poss\u{00ED}vel criar a pasta: {e}"@)
    } else if key == "Skipped {} unreadable preset file(s)"@ {
        Some("{} arquivo(s) de predefini\u{00E7}\u{00E3}o ileg\u{00ED}vel(is) ignorado(s)"@)
    } else if key == "Failed to load presets: {e}"@ {
        Some("Falha ao carregar predefini\u{00E7}\u{00F5}es: {e}"@)
    } else if key == "Killed {count} instance(s)"@ {
        Some("{count} inst\u{00E2}ncia(s) encerrada(s)"@)
    } else if key == "Multi-instance enabled"@ {
        Some("Multi-inst\u{00E2}ncia habilitada"@)
    } else if key == "Multi-instance disabled (takes effect after restart)"@ {
        Some("Multi-inst\u{00E2}ncia desabilitada (entra em vigor ap\u{00F3}s reiniciar)"@)
    } else if key == "Failed: {e}"@ {
        Some("Falhou: {e}"@)
    } else if key == "Copied Place ID {}"@ {
        Some("Place ID {} copiado"@)
    } else if key == "Exported {n} account(s) to {}"@ {
        Some("{n} conta(s) exportada(s) para {}"@)
    } else if key == "Export failed: {e}"@ {
        Some("Exporta\u{00E7}\u{00E3}o falhou: {e}"@)
    } else if key == "Imported {n} account(s) ({skipped} already present, skipped)"@ {
        Some("{n} conta(s) importada(s) ({skipped} j\u{00E1} existentes, puladas)"@)
    } else if key == "Import failed: {e}"@ {
        Some("Importa\u{00E7}\u{00E3}o falhou: {e}"@)
    } else if key == "No accounts to export"@ {
        Some("Nenhuma conta para exportar"@)
    } else if key == "Unlock the account store first"@ {
        Some("Destrave o armazenamento de contas primeiro"@)
    } else if key == "No account selected"@ {
        Some("Nenhuma conta selecionada"@)
    } else if key == "Pick an account in the sidebar to view it."@ {
        Some("Escolha uma conta na barra lateral para visualiz\u{00E1}-la."@)
    } else if key == "Manage launch presets"@ {
        Some("Gerenciar predefini\u{00E7}\u{00F5}es de lan\u{00E7}amento"@)
    } else {
        None
    }
}

/// Part 7 of the Brazilian Portuguese dictionary, in lookup order.
pub open spec fn pt_br_part_7(key: Seq<char>) -> Option<Seq<char>> {
    if key == "Game not found for this Place ID."@ {
        Some("Jogo n\u{00E3}o encontrado para este Place ID."@)
    } else if key == "Ready to launch"@ {
        Some("Pronto para lan\u{00E7}ar"@)
    } else if key == "Identifying game\u{2026}"@ {
        Some("Identificando jogo\u{2026}"@)
    } else if key == "Exploits"@ {
        Some("Exploits"@)
    } else if key == "Refresh"@ {
        Some("Atualizar"@)
    } else if key == "Re-fetch exploit statuses from WEAO"@ {
        Some("Recarregar status dos exploits do WEAO"@)
    } else if key == "Updated"@ {
        Some("Atualizado"@)
    } else if key == "Outdated"@ {
        Some("Desatualizado"@)
    } else if key == "Executor is up to date"@ {
        Some("Executor est\u{00E1} atualizado"@)
    } else if key == "Executor is outdated"@ {
        Some("Executor est\u{00E1} desatualizado"@)
    } else if key == "Loading exploits\u{2026}"@ {
        Some("Carregando exploits\u{2026}"@)
    } else if key == "No exploits found."@ {
        Some("Nenhum exploit encontrado."@)
    } else if key == "Check your connection, then try Refresh."@ {
        Some("Verifique sua conex\u{00E3}o e tente Atualizar."@)
    } else if key == "Paid"@ {
        Some("Pagos"@)
    } else if key == "Free"@ {
        Some("Gratuitos"@)
    } else if key == "External"@ {
        Some("Externos"@)
    } else if key == "Detected"@ {
        Some("Detectado"@)
    } else if key == "Undetected"@ {
        Some("N\u{00E3}o detectado"@)
    } else if key == "Visit"@ {
        Some("Acessar"@)
    } else if key == "View disclaimer"@ {
        Some("Ver aviso"@)
    } else if key == "You have not yet accepted the disclaimer for this area."@ {
        Some("Voc\u{00EA} ainda n\u{00E3}o aceitou o aviso para esta \u{00E1}rea."@)
    } else if key == "The Exploits area is locked until you accept the disclaimer."@ {
        Some("A \u{00E1}rea de Exploits est\u{00E1} bloqueada at\u{00E9} que voc\u{00EA} aceite o aviso."@)
    } else if key == "View terms"@ {
        Some("Ver termos"@)
    } else if key == "Review the disclaimer"@ {
        Some("Rever o aviso"@)
    } else if key == "Agree"@ {
        Some("Concordar"@)
    } else {
        None
    }
}

/// Part 8 of the Brazilian Portuguese dictionary, in lookup order.
pub open spec fn pt_br_part_8(key: Seq<char>) -> Option<Seq<char>> {
    if key == "Back"@ {
        Some("Voltar"@)
    } else if key == "N/A"@ {
        Some("N/D"@)
    } else if key == "Warning - Exploits"@ {
        Some("Aviso - Exploits"@)
    } else if key == "Exploits disclaimer body"@ {
        Some("Antes de utilizar esta \u{00E1}rea, leia atentamente:\n\n\u{2022} Esta \u{00E1}rea cont\u{00E9}m informa\u{00E7}\u{00F5}es sobre ferramentas de terceiros usadas para explora\u{00E7}\u{00E3}o/executors no Roblox.\n\u{2022} O uso dessas ferramentas pode violar as regras/Termos do Roblox.\n\u{2022} Existe risco de puni\u{00E7}\u{00E3}o, incluindo advert\u{00EA}ncia, suspens\u{00E3}o ou banimento da conta.\n\u{2022} O status \u{201C}Atualizado\u{201D} n\u{00E3}o significa que a ferramenta seja segura ou indetect\u{00E1}vel.\n\u{2022} Ferramentas de terceiros podem apresentar riscos de seguran\u{00E7}a.\n\u{2022} Links externos devem ser tratados com cautela.\n\u{2022} O Roblox Manager n\u{00E3}o garante o funcionamento, seguran\u{00E7}a ou aus\u{00EA}ncia de puni\u{00E7}\u{00E3}o.\n\u{2022} O uso dessas ferramentas \u{00E9} de responsabilidade do usu\u{00E1}rio.\n\nAo concordar, voc\u{00EA} assume total responsabilidade pelo uso desta \u{00E1}rea."@)
    } else if key == "I understand the risks and want to access the Exploits area."@ {
        Some("Eu entendo os riscos e quero acessar a \u{00E1}rea de Exploits."@)
    } else if key == "Continue"@ {
        Some("Continuar"@)
    } else if key == "Move account to trash"@ {
        Some("Mover conta para a lixeira"@)
    } else if key == "Trash"@ {
        Some("Lixeira"@)
    } else if key == "Restore"@ {
        Some("Restaurar"@)
    } else if key == "Delete permanently"@ {
        Some("Excluir permanentemente"@)
    } else if key == "Empty trash"@ {
        Some("Esvaziar lixeira"@)
    } else if key == "No accounts in the trash."@ {
        Some("N\u{00E3}o h\u{00E1} contas na lixeira."@)
    } else if key == "Move account to trash?"@ {
        Some("Mover conta para a lixeira?"@)
    } else if key == "The account can be restored later."@ {
        Some("A conta poder\u{00E1} ser restaurada posteriormente."@)
    } else if key == "This account is running. Are you sure you want to move it to the trash?"@ {
        Some("Esta conta est\u{00E1} em execu\u{00E7}\u{00E3}o. Tem certeza que deseja mov\u{00EA}-la para a lixeira?"@)
    } else if key == "Move to trash"@ {
        Some("Mover para a lixeira"@)
    } else if key == "This action cannot be undone."@ {
        Some("Esta a\u{00E7}\u{00E3}o n\u{00E3}o poder\u{00E1} ser desfeita."@)
    } else if key == "Delete all trashed accounts permanently?"@ {
        Some("Excluir permanentemente todas as contas da lixeira?"@)
    } else if key == "Recently removed"@ {
        Some("Removida recentemente"@)
    } else if key == "Restored account"@ {
        Some("Conta restaurada"@)
    } else if key == "Moved {} account(s) to trash"@ {
        Some("{n} conta(s) movida(s) para a lixeira"@)
    } else if key == "Account permanently deleted"@ {
        Some("Conta exclu\u{00ED}da permanentemente"@)
    } else if key == "Trash emptied"@ {
        Some("Lixeira esvaziada"@)
    } else if key == "Servers"@ {
        Some("Servidores"@)
    } else if key == "Game"@ {
        Some("Jogo"@)
    } else {
        None
    }
}

/// Part 9 of the Brazilian Portuguese dictionary, in lookup order.
pub open spec fn pt_br_part_9(key: Seq<char>) -> Option<Seq<char>> {
    if key == "No game selected"@ {
        Some("Nenhum jogo selecionado"@)
    } else if key == "Enter a Place ID to view servers."@ {
        Some("Informe um Place ID para visualizar os servidores."@)
    } else if key == "Sort by"@ {
        Some("Ordenar por"@)
    } else if key == "Lowest ping"@ {
        Some("Menor ping"@)
    } else if key == "Emptiest"@ {
        Some("Mais vazios"@)
    } else if key == "Fewest players"@ {
        Some("Menos jogadores"@)
    } else if key == "Most free slots"@ {
        Some("Mais vagas"@)
    } else if key == "Hide full servers"@ {
        Some("Ocultar servidores cheios"@)
    } else if key == "Featured servers"@ {
        Some("Servidores em destaque"@)
    } else if key == "is here"@ {
        Some("est\u{00E1} aqui"@)
    } else if key == "Join"@ {
        Some("Entrar"@)
    } else if key == "Available"@ {
        Some("Dispon\u{00ED}vel"@)
    } else if key == "Full"@ {
        Some("Cheio"@)
    } else if key == "players"@ {
        Some("jogadores"@)
    } else if key == "Load more"@ {
        Some("Carregar mais"@)
    } else if key == "Loading servers\u{2026}"@ {
        Some("Carregando servidores\u{2026}"@)
    } else if key == "No servers available at the moment."@ {
        Some("Nenhum servidor dispon\u{00ED}vel no momento."@)
    } else if key == "Try again"@ {
        Some("Tentar novamente"@)
    } else if key == "Re-fetch servers"@ {
        Some("Recarregar servidores"@)
    } else if key == "Server"@ {
        Some("Servidor"@)
    } else if key == "Move account to trash"@ {
        Some("Mover conta para a lixeira"@)
    } else if key == "Open servers panel"@ {
        Some("Abrir painel de servidores"@)
    } else if key == "Rate limited. Try again in a moment."@ {
        Some("Limite de requisi\u{00E7}\u{00F5}es atingido. Tente novamente em instantes."@)
    } else {
        None
    }
}

/// The Brazilian Portuguese translation of a key, if it has one. Where a
/// key is listed twice, the first entry counts.
pub open spec fn pt_br_spec(key: Seq<char>) -> Option<Seq<char>> {
    match pt_br_part_0(key) {
        Some(t) => Some(t),
        None => match pt_br_part_1(key) {
        Some(t) => Some(t),
        None => match pt_br_part_2(key) {
        Some(t) => Some(t),
        None => match pt_br_part_3(key) {
        Some(t) => Some(t),
        None => match pt_br_part_4(key) {
        Some(t) => Some(t),
        None => match pt_br_part_5(key) {
        Some(t) => Some(t),
        None => match pt_br_part_6(key) {
        Some(t) => Some(t),
        None => match pt_br_part_7(key) {
        Some(t) => Some(t),
        None => match pt_br_part_8(key) {
        Some(t) => Some(t),
        None => match pt_br_part_9(key) {
        Some(t) => Some(t),
        None => None,
    },
    },
    },
    },
    },
    },
    },
    },
    },
    }
}

/// The text shown for `key` in `lang`.
pub open spec fn tr_spec(lang: Language, key: Seq<char>) -> Seq<char> {
    match lang {
        Language::PtBr => match pt_br_spec(key) {
            Some(t) => t,
            None => key,
        },
        Language::En => key,
    }
}

/// Look up a translation for `key` in `lang`. Falls back to English if the
/// key is not in the dictionary (the key itself is the English text).
pub fn tr(lang: Language, key: &'static str) -> (s: &'static str)
    ensures
        s@ == tr_spec(lang, key@),
{
    match lang {
        Language::PtBr => match pt_br(key) {
            Some(t) => t,
            None => en(key),
        },
        Language::En => en(key),
    }
}

/// Every key reads as itself in English, and so does, in Brazilian
/// Portuguese, a key the dictionary lacks.
pub proof fn lemma_untranslated_keys_fall_back(key: Seq<char>)
    ensures
        tr_spec(Language::En, key) == key,
        pt_br_spec(key) is None ==> tr_spec(Language::PtBr, key) == key,
{
}

/// English dictionary: the key itself.
fn en(key: &'static str) -> (s: &'static str)
    ensures
        s@ == key@,
{
    key
}

/// Brazilian Portuguese dictionary; `None` for untranslated keys.
fn pt_br(key: &'static str) -> (res: Option<&'static str>)
    ensures
        match res {
            Some(t) => pt_br_spec(key@) == Some(t@),
            None => pt_br_spec(key@) is None,
        },
{
    match pt_br_part_0_lookup(key) {
        Some(t) => {
            return Some(t);
        },
        None => {},
    }
    match pt_br_part_1_lookup(key) {
        Some(t) => {
            return Some(t);
        },
        None => {},
    }
    match pt_br_part_2_lookup(key) {
        Some(t) => {
            return Some(t);
        },
        None => {},
    }
    match pt_br_part_3_lookup(key) {
        Some(t) => {
            return Some(t);
        },
        None => {},
    }
    match pt_br_part_4_lookup(key) {
        Some(t) => {
            return Some(t);
        },
        None => {},
    }
    match pt_br_part_5_lookup(key) {
        Some(t) => {
            return Some(t);
        },
        None => {},
    }
    match pt_br_part_6_lookup(key) {
        Some(t) => {
            return Some(t);
        },
        None => {},
    }
    match pt_br_part_7_lookup(key) {
        Some(t) => {
            return Some(t);
        },
        None => {},
    }
    match pt_br_part_8_lookup(key) {
        Some(t) => {
            return Some(t);
        },
        None => {},
    }
    match pt_br_part_9_lookup(key) {
        Some(t) => {
            return Some(t);
        },
        None => {},
    }
    None
}

#[verifier::rlimit(50)]
fn pt_br_part_0_lookup(key: &str) -> (res: Option<&'static str>)
    ensures
        match res {
            Some(t) => pt_br_part_0(key@) == Some(t@),
            None => pt_br_part_0(key@) is None,
        },
{
    if str_eq(key, "Accounts") {
        return Some("Contas");
    }
    if str_eq(key, "Private Servers") {
        return Some("Servidores Privados");
    }
    if str_eq(key, "Presets") {
        return Some("Predefini\u{00E7}\u{00F5}es");
    }
    if str_eq(key, "Settings") {
        return Some("Configura\u{00E7}\u{00F5}es");
    }
    if str_eq(key, "Stats") {
        return Some("Estat\u{00ED}sticas");
    }
    if str_eq(key, "Games") {
        return Some("Jogos");
    }
    if str_eq(key, "Refresh") {
        return Some("Atualizar");
    }
    if str_eq(key, "Search games\u{2026}") {
        return Some("Buscar jogos\u{2026}");
    }
    if str_eq(key, "Popular") {
        return Some("Populares");
    }
    if str_eq(key, "Top Rated") {
        return Some("Melhor Avaliados");
    }
    if str_eq(key, "Top Earning") {
        return Some("Mais Rent\u{00E1}veis");
    }
    if str_eq(key, "No games found for that search.") {
        return Some("Nenhum jogo encontrado para essa busca.");
    }
    if str_eq(key, "Search results ({} game)") {
        return Some("Resultado da busca ({} jogo)");
    }
    if str_eq(key, "Search results ({} games)") {
        return Some("Resultados da busca ({} jogos)");
    }
    if str_eq(key, "Remove from favorites") {
        return Some("Remover dos favoritos");
    }
    if str_eq(key, "Add to favorites") {
        return Some("Adicionar aos favoritos");
    }
    if str_eq(key, "Copy Place ID {}") {
        return Some("Copiar Place ID {}");
    }
    if str_eq(key, "Loading games\u{2026}") {
        return Some("Carregando jogos\u{2026}");
    }
    if str_eq(key, "Re-fetch all game feeds") {
        return Some("Recarregar todas as listas");
    }
    if str_eq(key, "Check your connection, then try Refresh.") {
        return Some("Verifique sua conex\u{00E3}o e tente Atualizar.");
    }
    if str_eq(key, "Statistics") {
        return Some("Estat\u{00ED}sticas");
    }
    if str_eq(key, "Add some accounts to see statistics here.") {
        return Some("Adicione contas para ver estat\u{00ED}sticas aqui.");
    }
    if str_eq(key, "Presence") {
        return Some("Presen\u{00E7}a");
    }
    if str_eq(key, "Total") {
        return Some("Total");
    }
    if str_eq(key, "Online") {
        return Some("Online");
    }
    None
}

#[verifier::rlimit(50)]
fn pt_br_part_1_lookup(key: &str) -> (res: Option<&'static str>)
    ensures
        match res {
            Some(t) => pt_br_part_1(key@) == Some(t@),
            None => pt_br_part_1(key@) is None,
        },
{
    if str_eq(key, "In Game") {
        return Some("No Jogo");
    }
    if str_eq(key, "In Studio") {
        return Some("No Studio");
    }
    if str_eq(key, "Offline") {
        return Some("Offline");
    }
    if str_eq(key, "Moderated") {
        return Some("Moderadas");
    }
    if str_eq(key, "Cookie Expired") {
        return Some("Cookie Expirado");
    }
    if str_eq(key, "Roblox clients running:") {
        return Some("Roblox em execu\u{00E7}\u{00E3}o:");
    }
    if str_eq(key, "Accounts by Group") {
        return Some("Contas por Grupo");
    }
    if str_eq(key, "Split of accounts by current status") {
        return Some("Divis\u{00E3}o das contas por status atual");
    }
    if str_eq(key, "{}/{} online") {
        return Some("{}/{} online");
    }
    if str_eq(key, "Every account in RM") {
        return Some("Todas as contas do RM");
    }
    if str_eq(key, "Accounts with a running Roblox client") {
        return Some("Contas com Roblox em execu\u{00E7}\u{00E3}o");
    }
    if str_eq(key, "Accounts currently in a Roblox game") {
        return Some("Contas atualmente em um jogo Roblox");
    }
    if str_eq(key, "Accounts open in Roblox Studio") {
        return Some("Contas abertas no Roblox Studio");
    }
    if str_eq(key, "Accounts with no Roblox client running") {
        return Some("Contas sem Roblox em execu\u{00E7}\u{00E3}o");
    }
    if str_eq(key, "Accounts with an active moderation/termination") {
        return Some("Contas com modera\u{00E7}\u{00E3}o/termina\u{00E7}\u{00E3}o ativa");
    }
    if str_eq(key, "Accounts whose cookie no longer validates") {
        return Some("Contas cujo cookie n\u{00E3}o valida mais");
    }
    if str_eq(key, "Launch") {
        return Some("Lan\u{00E7}ar");
    }
    if str_eq(key, "Enter a place ID to launch this account") {
        return Some("Insira um Place ID para lan\u{00E7}ar esta conta");
    }
    if str_eq(key, "Place ID") {
        return Some("Place ID");
    }
    if str_eq(key, "Job ID (optional)") {
        return Some("Job ID (opcional)");
    }
    if str_eq(key, "Specific server GUID") {
        return Some("GUID do servidor espec\u{00ED}fico");
    }
    if str_eq(key, "Details") {
        return Some("Detalhes");
    }
    if str_eq(key, "Alias") {
        return Some("Apelido");
    }
    if str_eq(key, "Group") {
        return Some("Grupo");
    }
    if str_eq(key, "Validated") {
        return Some("Validado");
    }
    None
}

#[verifier::rlimit(50)]
fn pt_br_part_2_lookup(key: &str) -> (res: Option<&'static str>)
    ensures
        match res {
            Some(t) => pt_br_part_2(key@) == Some(t@),
            None => pt_br_part_2(key@) is None,
        },
{
    if str_eq(key, "Location") {
        return Some("Localiza\u{00E7}\u{00E3}o");
    }
    if str_eq(key, "Notes") {
        return Some("Anota\u{00E7}\u{00F5}es");
    }
    if str_eq(key, "Saved automatically when you click away.") {
        return Some("Salvo automaticamente ao clicar fora.");
    }
    if str_eq(key, "Add notes about this account (origin, password hints, role\u{2026})") {
        return Some("Anota\u{00E7}\u{00F5}es sobre esta conta (origem, dicas de senha, fun\u{00E7}\u{00E3}o\u{2026})");
    }
    if str_eq(key, "Cookie expired. Remove and re-add this account with a fresh cookie.") {
        return Some("Cookie expirado. Remova e adicione esta conta novamente com um cookie novo.");
    }
    if str_eq(key, "Remove account") {
        return Some("Remover conta");
    }
    if str_eq(key, "More actions") {
        return Some("Mais a\u{00E7}\u{00F5}es");
    }
    if str_eq(key, "Open a webview signed in as this account") {
        return Some("Abrir navegador logado como esta conta");
    }
    if str_eq(key, "Open browser as") {
        return Some("Abrir como");
    }
    if str_eq(key, "Save these inputs as a launch preset") {
        return Some("Salvar estes dados como predefini\u{00E7}\u{00E3}o de lan\u{00E7}amento");
    }
    if str_eq(key, "Save as preset") {
        return Some("Salvar como predefini\u{00E7}\u{00E3}o");
    }
    if str_eq(key, "Save") {
        return Some("Salvar");
    }
    if str_eq(key, "Cancel") {
        return Some("Cancelar");
    }
    if str_eq(key, "Preset name") {
        return Some("Nome da predefini\u{00E7}\u{00E3}o");
    }
    if str_eq(key, "Kill all running Roblox instances") {
        return Some("Encerrar todas as inst\u{00E2}ncias do Roblox");
    }
    if str_eq(key, "Enter a Place ID to launch") {
        return Some("Insira um Place ID para lan\u{00E7}ar");
    }
    if str_eq(key, "Launch this account into the chosen place") {
        return Some("Lan\u{00E7}ar esta conta no jogo escolhido");
    }
    if str_eq(key, "Storage") {
        return Some("Armazenamento");
    }
    if str_eq(key, "Launch Behavior") {
        return Some("Comportamento de Lan\u{00E7}amento");
    }
    if str_eq(key, "Use Windows Credential Manager (instead of encrypted file)") {
        return Some("Usar o Gerenciador de Credenciais do Windows (em vez de arquivo criptografado)");
    }
    if str_eq(key, "Enable multi-instance") {
        return Some("Habilitar multi-inst\u{00E2}ncia");
    }
    if str_eq(key, "Close all Roblox processes (including tray) before enabling.") {
        return Some("Feche todos os processos do Roblox (incluindo a bandeja) antes de habilitar.");
    }
    if str_eq(key, "Kill Roblox tray/background processes automatically") {
        return Some("Encerrar processos de bandeja/fundo do Roblox automaticamente");
    }
    if str_eq(key, "Kills idle \"always running\" Roblox processes (--launch-to-tray).") {
        return Some("Encerra processos Roblox \"sempre em execu\u{00E7}\u{00E3}o\" ociosos (--launch-to-tray).");
    }
    if str_eq(key, "Auto-arrange Roblox windows after launch") {
        return Some("Organizar janelas do Roblox automaticamente ap\u{00F3}s o lan\u{00E7}amento");
    }
    None
}

#[verifier::rlimit(50)]
fn pt_br_part_3_lookup(key: &str) -> (res: Option<&'static str>)
    ensures
        match res {
            Some(t) => pt_br_part_3(key@) == Some(t@),
            None => pt_br_part_3(key@) is None,
        },
{
    if str_eq(key, "Tiles Roblox windows in a grid (2 = side-by-side, 4 = 2\u{00D7}2, etc.).") {
        return Some("Organiza as janelas do Roblox em grade (2 = lado a lado, 4 = 2\u{00D7}2, etc.).");
    }
    if str_eq(key, "Name Roblox windows after their account") {
        return Some("Nomear janelas do Roblox pelo nome da conta");
    }
    if str_eq(key, "Window titles are readable by any program, and show up in screenshots and streams.") {
        return Some("Os t\u{00ED}tulos das janelas s\u{00E3}o leg\u{00ED}veis por qualquer programa e aparecem em capturas e transmiss\u{00F5}es.");
    }
    if str_eq(key, "Launch delay:") {
        return Some("Atraso de lan\u{00E7}amento:");
    }
    if str_eq(key, "Minimum gap between account launches. Applies to single and bulk launches. 0 disables throttling.") {
        return Some("Intervalo m\u{00ED}nimo entre lan\u{00E7}amentos de contas. Aplica-se a lan\u{00E7}amentos \u{00FA}nicos e em massa. 0 desativa a limita\u{00E7}\u{00E3}o.");
    }
    if str_eq(key, "Privacy") {
        return Some("Privacidade");
    }
    if str_eq(key, "Clear RobloxCookies.dat before each launch") {
        return Some("Limpar RobloxCookies.dat antes de cada lan\u{00E7}amento");
    }
    if str_eq(key, "Prevents Roblox from associating your accounts via stored cookies.") {
        return Some("Impede que o Roblox associe suas contas por meio de cookies armazenados.");
    }
    if str_eq(key, "Anonymize account names") {
        return Some("Anonimizar nomes de contas");
    }
    if str_eq(key, "Replaces usernames and display names with generic \"Account 1\", \"Account 2\", etc.") {
        return Some("Substitui nomes de usu\u{00E1}rio e nomes de exibi\u{00E7}\u{00E3}o por gen\u{00E9}ricos como \"Conta 1\", \"Conta 2\", etc.");
    }
    if str_eq(key, "Developer Options") {
        return Some("Op\u{00E7}\u{00F5}es de Desenvolvedor");
    }
    if str_eq(key, "Show the Asset Manager tab") {
        return Some("Mostrar a aba Gerenciador de Assets");
    }
    if str_eq(key, "Upload assets to Roblox from any saved account, track moderation, and grant experiences permission to use them.") {
        return Some("Envie assets para o Roblox de qualquer conta salva, acompanhe a modera\u{00E7}\u{00E3}o e conceda permiss\u{00F5}es para experi\u{00EA}ncias usarem.");
    }
    if str_eq(key, "Roblox Player Path") {
        return Some("Caminho do Roblox Player");
    }
    if str_eq(key, "Leave empty for auto-detect:") {
        return Some("Deixe vazio para detectar automaticamente:");
    }
    if str_eq(key, "Backup & Transfer") {
        return Some("Backup e Transfer\u{00EA}ncia");
    }
    if str_eq(key, "Export your accounts to a portable file. Cookies are included in plaintext, so treat the file like a password manager backup.") {
        return Some("Exporte suas contas para um arquivo port\u{00E1}til. Os cookies est\u{00E3}o em texto puro, ent\u{00E3}o trate o arquivo como um backup de gerenciador de senhas.");
    }
    if str_eq(key, "Export accounts\u{2026}") {
        return Some("Exportar contas\u{2026}");
    }
    if str_eq(key, "Import accounts\u{2026}") {
        return Some("Importar contas\u{2026}");
    }
    if str_eq(key, "Language") {
        return Some("Idioma");
    }
    if str_eq(key, "English") {
        return Some("English");
    }
    if str_eq(key, "Portugu\u{00EA}s (BR)") {
        return Some("Portugu\u{00EA}s (BR)");
    }
    if str_eq(key, "Encryption") {
        return Some("Criptografia");
    }
    if str_eq(key, "Accounts are encrypted with your master password.") {
        return Some("As contas s\u{00E3}o criptografadas com sua senha mestra.");
    }
    if str_eq(key, "RM asks for it every time it starts. If you forget it, the accounts cannot be recovered.") {
        return Some("O RM pede a senha sempre que inicia. Se voc\u{00EA} esquec\u{00EA}-la, as contas n\u{00E3}o podem ser recuperadas.");
    }
    None
}

#[verifier::rlimit(50)]
fn pt_br_part_4_lookup(key: &str) -> (res: Option<&'static str>)
    ensures
        match res {
            Some(t) => pt_br_part_4(key@) == Some(t@),
            None => pt_br_part_4(key@) is None,
        },
{
    if str_eq(key, "Accounts are encrypted and unlock automatically on this PC.") {
        return Some("As contas s\u{00E3}o criptografadas e desbloqueiam automaticamente neste PC.");
    }
    if str_eq(key, "The key is held in Windows Credential Manager, so the file is useless on its own. Anything running as you can still read it.") {
        return Some("A chave fica no Gerenciador de Credenciais do Windows, ent\u{00E3}o o arquivo sozinho n\u{00E3}o vale nada. Qualquer programa rodando como voc\u{00EA} ainda pode l\u{00EA}-lo.");
    }
    if str_eq(key, "Change your master password:") {
        return Some("Alterar sua senha mestra:");
    }
    if str_eq(key, "Require a master password at startup:") {
        return Some("Exigir senha mestra na inicializa\u{00E7}\u{00E3}o:");
    }
    if str_eq(key, "New password") {
        return Some("Nova senha");
    }
    if str_eq(key, "Confirm password") {
        return Some("Confirmar senha");
    }
    if str_eq(key, "Passwords do not match.") {
        return Some("As senhas n\u{00E3}o coincidem.");
    }
    if str_eq(key, "Stop asking for a password") {
        return Some("Parar de pedir a senha");
    }
    if str_eq(key, "Save Settings") {
        return Some("Salvar Configura\u{00E7}\u{00F5}es");
    }
    if str_eq(key, "Change password") {
        return Some("Alterar senha");
    }
    if str_eq(key, "Set password") {
        return Some("Definir senha");
    }
    if str_eq(key, "RM asks for it every time it starts. If you forget it, the accounts cannot be recovered.") {
        return Some("O RM pede a senha sempre que inicia. Se voc\u{00EA} esquec\u{00EA}-la, as contas n\u{00E3}o podem ser recuperadas.");
    }
    if str_eq(key, "The key is held in Windows Credential Manager, so the file is useless on its own. Anything running as you can still read it.") {
        return Some("A chave fica no Gerenciador de Credenciais do Windows, ent\u{00E3}o o arquivo sozinho n\u{00E3}o vale nada. Qualquer programa rodando como voc\u{00EA} ainda pode l\u{00EA}-lo.");
    }
    if str_eq(key, "Renames each launched Roblox window to the account's alias, so tiled windows are tellable apart.\n\nOff by default. This writes to the Roblox window rather than just reading it, and how Hyperion treats that is not documented. It also changes what capture software matching on window title will find.") {
        return Some("Renomeia cada janela do Roblox lan\u{00E7}ada para o apelido da conta, para que as janelas organizadas sejam distingu\u{00ED}veis.\n\nDesativado por padr\u{00E3}o. Isso grava na janela do Roblox, em vez de apenas l\u{00EA}-la, e como o Hyperion trata isso n\u{00E3}o \u{00E9} documentado. Tamb\u{00E9}m altera o que o software de captura que usa o t\u{00ED}tulo da janela encontrar\u{00E1}.");
    }
    if str_eq(key, "\u{26a0} Uploads are permanent and public. Every asset is moderated under the account that uploaded it.") {
        return Some("\u{26a0} Os uploads s\u{00E3}o permanentes e p\u{00FA}blicos. Cada asset \u{00E9} moderado na conta que o enviou.");
    }
    if str_eq(key, "(Roblox rate-limits some IPs)") {
        return Some("(o Roblox limita algumas IPs)");
    }
    if str_eq(key, "\u{26a0} This interacts with Hyperion anti-cheat and may carry ban risk.") {
        return Some("\u{26a0} Isso interage com o anti-cheat Hyperion e pode trazer risco de banimento.");
    }
    if str_eq(key, "\u{26a0} Recommended when multi-instance is enabled. Tray processes stack up.") {
        return Some("\u{26a0} Recomendado quando a multi-inst\u{00E2}ncia est\u{00E1} habilitada. Processos de bandeja se acumulam.");
    }
    if str_eq(key, "{} Accounts Selected") {
        return Some("{} Contas Selecionadas");
    }
    if str_eq(key, "Clear selection") {
        return Some("Limpar sele\u{00E7}\u{00E3}o");
    }
    if str_eq(key, "Bulk Launch") {
        return Some("Lan\u{00E7}amento em Massa");
    }
    if str_eq(key, "All selected accounts will join the same server sequentially.") {
        return Some("Todas as contas selecionadas entrar\u{00E3}o no mesmo servidor, em sequ\u{00EA}ncia.");
    }
    if str_eq(key, "Launch {} Accounts") {
        return Some("Lan\u{00E7}ar {} Contas");
    }
    if str_eq(key, "Kill All Instances") {
        return Some("Encerrar Todas as Inst\u{00E2}ncias");
    }
    if str_eq(key, "Account {}") {
        return Some("Conta {}");
    }
    None
}

#[verifier::rlimit(50)]
fn pt_br_part_5_lookup(key: &str) -> (res: Option<&'static str>)
    ensures
        match res {
            Some(t) => pt_br_part_5(key@) == Some(t@),
            None => pt_br_part_5(key@) is None,
        },
{
    if str_eq(key, "Launch all") {
        return Some("Lan\u{00E7}ar todos");
    }
    if str_eq(key, "Kill all") {
        return Some("Encerrar todos");
    }
    if str_eq(key, "Place ID:") {
        return Some("Place ID:");
    }
    if str_eq(key, "Job ID (optional):") {
        return Some("Job ID (opcional):");
    }
    if str_eq(key, "Edit Preset") {
        return Some("Editar Predefini\u{00E7}\u{00E3}o");
    }
    if str_eq(key, "New Preset") {
        return Some("Nova Predefini\u{00E7}\u{00E3}o");
    }
    if str_eq(key, "Reload") {
        return Some("Recarregar");
    }
    if str_eq(key, "Re-scan the presets folder for new or removed presets") {
        return Some("Revarrer a pasta de predefini\u{00E7}\u{00F5}es em busca de novas ou removidas");
    }
    if str_eq(key, "Open folder") {
        return Some("Abrir pasta");
    }
    if str_eq(key, "Reveal the presets folder in Explorer") {
        return Some("Revelar a pasta de predefini\u{00E7}\u{00F5}es no Explorer");
    }
    if str_eq(key, "Name:") {
        return Some("Nome:");
    }
    if str_eq(key, "e.g. Adopt Me") {
        return Some("ex.: Adopt Me");
    }
    if str_eq(key, "e.g. 920587237") {
        return Some("ex.: 920587237");
    }
    if str_eq(key, "Save changes") {
        return Some("Salvar altera\u{00E7}\u{00F5}es");
    }
    if str_eq(key, "+ Add Preset") {
        return Some("+ Adicionar Predefini\u{00E7}\u{00E3}o");
    }
    if str_eq(key, "Place ID must be a number.") {
        return Some("O Place ID deve ser um n\u{00FA}mero.");
    }
    if str_eq(key, "Saved Presets") {
        return Some("Predefini\u{00E7}\u{00F5}es Salvas");
    }
    if str_eq(key, "No presets yet. Create one above to launch favorite games faster.") {
        return Some("Nenhuma predefini\u{00E7}\u{00E3}o ainda. Crie uma acima para lan\u{00E7}ar jogos favoritos mais r\u{00E1}pido.");
    }
    if str_eq(key, "Delete") {
        return Some("Excluir");
    }
    if str_eq(key, "Edit") {
        return Some("Editar");
    }
    if str_eq(key, "Place {}, Job {}") {
        return Some("Place {}, Job {}");
    }
    if str_eq(key, "Place {}") {
        return Some("Place {}");
    }
    if str_eq(key, "Search accounts\u{2026}") {
        return Some("Buscar contas\u{2026}");
    }
    if str_eq(key, "Add Account") {
        return Some("Adicionar Conta");
    }
    if str_eq(key, "{} selected") {
        return Some("{} selecionadas");
    }
    None
}

#[verifier::rlimit(50)]
fn pt_br_part_6_lookup(key: &str) -> (res: Option<&'static str>)
    ensures
        match res {
            Some(t) => pt_br_part_6(key@) == Some(t@),
            None => pt_br_part_6(key@) is None,
        },
{
    if str_eq(key, "Preset saved") {
        return Some("Predefini\u{00E7}\u{00E3}o salva");
    }
    if str_eq(key, "Preset deleted") {
        return Some("Predefini\u{00E7}\u{00E3}o exclu\u{00ED}da");
    }
    if str_eq(key, "Save failed: {e}") {
        return Some("Falha ao salvar: {e}");
    }
    if str_eq(key, "Delete failed: {e}") {
        return Some("Falha ao excluir: {e}");
    }
    if str_eq(key, "Settings saved") {
        return Some("Configura\u{00E7}\u{00F5}es salvas");
    }
    if str_eq(key, "Game launched") {
        return Some("Jogo lan\u{00E7}ado");
    }
    if str_eq(key, "Copied to clipboard") {
        return Some("Copiado para a \u{00E1}rea de transfer\u{00EA}ncia");
    }
    if str_eq(key, "Refreshing all accounts\u{2026}") {
        return Some("Atualizando todas as contas\u{2026}");
    }
    if str_eq(key, "Could not create folder: {e}") {
        return Some("N\u{00E3}o foi poss\u{00ED}vel criar a pasta: {e}");
    }
    if str_eq(key, "Skipped {} unreadable preset file(s)") {
        return Some("{} arquivo(s) de predefini\u{00E7}\u{00E3}o ileg\u{00ED}vel(is) ignorado(s)");
    }
    if str_eq(key, "Failed to load presets: {e}") {
        return Some("Falha ao carregar predefini\u{00E7}\u{00F5}es: {e}");
    }
    if str_eq(key, "Killed {count} instance(s)") {
        return Some("{count} inst\u{00E2}ncia(s) encerrada(s)");
    }
    if str_eq(key, "Multi-instance enabled") {
        return Some("Multi-inst\u{00E2}ncia habilitada");
    }
    if str_eq(key, "Multi-instance disabled (takes effect after restart)") {
        return Some("Multi-inst\u{00E2}ncia desabilitada (entra em vigor ap\u{00F3}s reiniciar)");
    }
    if str_eq(key, "Failed: {e}") {
        return Some("Falhou: {e}");
    }
    if str_eq(key, "Copied Place ID {}") {
        return Some("Place ID {} copiado");
    }
    if str_eq(key, "Exported {n} account(s) to {}") {
        return Some("{n} conta(s) exportada(s) para {}");
    }
    if str_eq(key, "Export failed: {e}") {
        return Some("Exporta\u{00E7}\u{00E3}o falhou: {e}");
    }
    if str_eq(key, "Imported {n} account(s) ({skipped} already present, skipped)") {
        return Some("{n} conta(s) importada(s) ({skipped} j\u{00E1} existentes, puladas)");
    }
    if str_eq(key, "Import failed: {e}") {
        return Some("Importa\u{00E7}\u{00E3}o falhou: {e}");
    }
    if str_eq(key, "No accounts to export") {
        return Some("Nenhuma conta para exportar");
    }
    if str_eq(key, "Unlock the account store first") {
        return Some("Destrave o armazenamento de contas primeiro");
    }
    if str_eq(key, "No account selected") {
        return Some("Nenhuma conta selecionada");
    }
    if str_eq(key, "Pick an account in the sidebar to view it.") {
        return Some("Escolha uma conta na barra lateral para visualiz\u{00E1}-la.");
    }
    if str_eq(key, "Manage launch presets") {
        return Some("Gerenciar predefini\u{00E7}\u{00F5}es de lan\u{00E7}amento");
    }
    None
}

#[verifier::rlimit(50)]
fn pt_br_part_7_lookup(key: &str) -> (res: Option<&'static str>)
    ensures
        match res {
            Some(t) => pt_br_part_7(key@) == Some(t@),
            None => pt_br_part_7(key@) is None,
        },
{
    if str_eq(key, "Game not found for this Place ID.") {
        return Some("Jogo n\u{00E3}o encontrado para este Place ID.");
    }
    if str_eq(key, "Ready to launch") {
        return Some("Pronto para lan\u{00E7}ar");
    }
    if str_eq(key, "Identifying game\u{2026}") {
        return Some("Identificando jogo\u{2026}");
    }
    if str_eq(key, "Exploits") {
        return Some("Exploits");
    }
    if str_eq(key, "Refresh") {
        return Some("Atualizar");
    }
    if str_eq(key, "Re-fetch exploit statuses from WEAO") {
        return Some("Recarregar status dos exploits do WEAO");
    }
    if str_eq(key, "Updated") {
        return Some("Atualizado");
    }
    if str_eq(key, "Outdated") {
        return Some("Desatualizado");
    }
    if str_eq(key, "Executor is up to date") {
        return Some("Executor est\u{00E1} atualizado");
    }
    if str_eq(key, "Executor is outdated") {
        return Some("Executor est\u{00E1} desatualizado");
    }
    if str_eq(key, "Loading exploits\u{2026}") {
        return Some("Carregando exploits\u{2026}");
    }
    if str_eq(key, "No exploits found.") {
        return Some("Nenhum exploit encontrado.");
    }
    if str_eq(key, "Check your connection, then try Refresh.") {
        return Some("Verifique sua conex\u{00E3}o e tente Atualizar.");
    }
    if str_eq(key, "Paid") {
        return Some("Pagos");
    }
    if str_eq(key, "Free") {
        return Some("Gratuitos");
    }
    if str_eq(key, "External") {
        return Some("Externos");
    }
    if str_eq(key, "Detected") {
        return Some("Detectado");
    }
    if str_eq(key, "Undetected") {
        return Some("N\u{00E3}o detectado");
    }
    if str_eq(key, "Visit") {
        return Some("Acessar");
    }
    if str_eq(key, "View disclaimer") {
        return Some("Ver aviso");
    }
    if str_eq(key, "You have not yet accepted the disclaimer for this area.") {
        return Some("Voc\u{00EA} ainda n\u{00E3}o aceitou o aviso para esta \u{00E1}rea.");
    }
    if str_eq(key, "The Exploits area is locked until you accept the disclaimer.") {
        return Some("A \u{00E1}rea de Exploits est\u{00E1} bloqueada at\u{00E9} que voc\u{00EA} aceite o aviso.");
    }
    if str_eq(key, "View terms") {
        return Some("Ver termos");
    }
    if str_eq(key, "Review the disclaimer") {
        return Some("Rever o aviso");
    }
    if str_eq(key, "Agree") {
        return Some("Concordar");
    }
    None
}

#[verifier::rlimit(50)]
fn pt_br_part_8_lookup(key: &str) -> (res: Option<&'static str>)
    ensures
        match res {
            Some(t) => pt_br_part_8(key@) == Some(t@),
            None => pt_br_part_8(key@) is None,
        },
{
    if str_eq(key, "Back") {
        return Some("Voltar");
    }
    if str_eq(key, "N/A") {
        return Some("N/D");
    }
    if str_eq(key, "Warning - Exploits") {
        return Some("Aviso - Exploits");
    }
    if str_eq(key, "Exploits disclaimer body") {
        return Some("Antes de utilizar esta \u{00E1}rea, leia atentamente:\n\n\u{2022} Esta \u{00E1}rea cont\u{00E9}m informa\u{00E7}\u{00F5}es sobre ferramentas de terceiros usadas para explora\u{00E7}\u{00E3}o/executors no Roblox.\n\u{2022} O uso dessas ferramentas pode violar as regras/Termos do Roblox.\n\u{2022} Existe risco de puni\u{00E7}\u{00E3}o, incluindo advert\u{00EA}ncia, suspens\u{00E3}o ou banimento da conta.\n\u{2022} O status \u{201C}Atualizado\u{201D} n\u{00E3}o significa que a ferramenta seja segura ou indetect\u{00E1}vel.\n\u{2022} Ferramentas de terceiros podem apresentar riscos de seguran\u{00E7}a.\n\u{2022} Links externos devem ser tratados com cautela.\n\u{2022} O Roblox Manager n\u{00E3}o garante o funcionamento, seguran\u{00E7}a ou aus\u{00EA}ncia de puni\u{00E7}\u{00E3}o.\n\u{2022} O uso dessas ferramentas \u{00E9} de responsabilidade do usu\u{00E1}rio.\n\nAo concordar, voc\u{00EA} assume total responsabilidade pelo uso desta \u{00E1}rea.");
    }
    if str_eq(key, "I understand the risks and want to access the Exploits area.") {
        return Some("Eu entendo os riscos e quero acessar a \u{00E1}rea de Exploits.");
    }
    if str_eq(key, "Continue") {
        return Some("Continuar");
    }
    if str_eq(key, "Move account to trash") {
        return Some("Mover conta para a lixeira");
    }
    if str_eq(key, "Trash") {
        return Some("Lixeira");
    }
    if str_eq(key, "Restore") {
        return Some("Restaurar");
    }
    if str_eq(key, "Delete permanently") {
        return Some("Excluir permanentemente");
    }
    if str_eq(key, "Empty trash") {
        return Some("Esvaziar lixeira");
    }
    if str_eq(key, "No accounts in the trash.") {
        return Some("N\u{00E3}o h\u{00E1} contas na lixeira.");
    }
    if str_eq(key, "Move account to trash?") {
        return Some("Mover conta para a lixeira?");
    }
    if str_eq(key, "The account can be restored later.") {
        return Some("A conta poder\u{00E1} ser restaurada posteriormente.");
    }
    if str_eq(key, "This account is running. Are you sure you want to move it to the trash?") {
        return Some("Esta conta est\u{00E1} em execu\u{00E7}\u{00E3}o. Tem certeza que deseja mov\u{00EA}-la para a lixeira?");
    }
    if str_eq(key, "Move to trash") {
        return Some("Mover para a lixeira");
    }
    if str_eq(key, "This action cannot be undone.") {
        return Some("Esta a\u{00E7}\u{00E3}o n\u{00E3}o poder\u{00E1} ser desfeita.");
    }
    if str_eq(key, "Delete all trashed accounts permanently?") {
        return Some("Excluir permanentemente todas as contas da lixeira?");
    }
    if str_eq(key, "Recently removed") {
        return Some("Removida recentemente");
    }
    if str_eq(key, "Restored account") {
        return Some("Conta restaurada");
    }
    if str_eq(key, "Moved {} account(s) to trash") {
        return Some("{n} conta(s) movida(s) para a lixeira");
    }
    if str_eq(key, "Account permanently deleted") {
        return Some("Conta exclu\u{00ED}da permanentemente");
    }
    if str_eq(key, "Trash emptied") {
        return Some("Lixeira esvaziada");
    }
    if str_eq(key, "Servers") {
        return Some("Servidores");
    }
    if str_eq(key, "Game") {
        return Some("Jogo");
    }
    None
}

#[verifier::rlimit(50)]
fn pt_br_part_9_lookup(key: &str) -> (res: Option<&'static str>)
    ensures
        match res {
            Some(t) => pt_br_part_9(key@) == Some(t@),
            None => pt_br_part_9(key@) is None,
        },
{
    if str_eq(key, "No game selected") {
        return Some("Nenhum jogo selecionado");
    }
    if str_eq(key, "Enter a Place ID to view servers.") {
        return Some("Informe um Place ID para visualizar os servidores.");
    }
    if str_eq(key, "Sort by") {
        return Some("Ordenar por");
    }
    if str_eq(key, "Lowest ping") {
        return Some("Menor ping");
    }
    if str_eq(key, "Emptiest") {
        return Some("Mais vazios");
    }
    if str_eq(key, "Fewest players") {
        return Some("Menos jogadores");
    }
    if str_eq(key, "Most free slots") {
        return Some("Mais vagas");
    }
    if str_eq(key, "Hide full servers") {
        return Some("Ocultar servidores cheios");
    }
    if str_eq(key, "Featured servers") {
        return Some("Servidores em destaque");
    }
    if str_eq(key, "is here") {
        return Some("est\u{00E1} aqui");
    }
    if str_eq(key, "Join") {
        return Some("Entrar");
    }
    if str_eq(key, "Available") {
        return Some("Dispon\u{00ED}vel");
    }
    if str_eq(key, "Full") {
        return Some("Cheio");
    }
    if str_eq(key, "players") {
        return Some("jogadores");
    }
    if str_eq(key, "Load more") {
        return Some("Carregar mais");
    }
    if str_eq(key, "Loading servers\u{2026}") {
        return Some("Carregando servidores\u{2026}");
    }
    if str_eq(key, "No servers available at the moment.") {
        return Some("Nenhum servidor dispon\u{00ED}vel no momento.");
    }
    if str_eq(key, "Try again") {
        return Some("Tentar novamente");
    }
    if str_eq(key, "Re-fetch servers") {
        return Some("Recarregar servidores");
    }
    if str_eq(key, "Server") {
        return Some("Servidor");
    }
    if str_eq(key, "Move account to trash") {
        return Some("Mover conta para a lixeira");
    }
    if str_eq(key, "Open servers panel") {
        return Some("Abrir painel de servidores");
    }
    if str_eq(key, "Rate limited. Try again in a moment.") {
        return Some("Limite de requisi\u{00E7}\u{00F5}es atingido. Tente novamente em instantes.");
    }
    None
}

/// The translation that `table` gives `key`, looking from position `i` on:
/// that of the first entry for `key`, if there is one.
pub open spec fn table_lookup(table: Seq<(Seq<char>, Seq<char>)>, key: Seq<char>, i: int) -> Option<
    Seq<char>,
>
    decreases table.len() - i,
{
    if i < 0 || i >= table.len() {
        None
    } else if table[i].0 == key {
        Some(table[i].1)
    } else {
        table_lookup(table, key, i + 1)
    }
}

/// Entries 0 to 24 of the Brazilian Portuguese dictionary, as
/// (English text, translation) pairs.
pub open spec fn pt_br_entries_0() -> Seq<(Seq<char>, Seq<char>)> {
    seq![
        ("Accounts"@, "Contas"@),
        ("Private Servers"@, "Servidores Privados"@),
        ("Presets"@, "Predefini\u{00E7}\u{00F5}es"@),
        ("Settings"@, "Configura\u{00E7}\u{00F5}es"@),
        ("Stats"@, "Estat\u{00ED}sticas"@),
        ("Games"@, "Jogos"@),
        ("Refresh"@, "Atualizar"@),
        ("Search games\u{2026}"@, "Buscar jogos\u{2026}"@),
        ("Popular"@, "Populares"@),
        ("Top Rated"@, "Melhor Avaliados"@),
        ("Top Earning"@, "Mais Rent\u{00E1}veis"@),
        ("No games found for that search."@, "Nenhum jogo encontrado para essa busca."@),
        ("Search results ({} game)"@, "Resultado da busca ({} jogo)"@),
        ("Search results ({} games)"@, "Resultados da busca ({} jogos)"@),
        ("Remove from favorites"@, "Remover dos favoritos"@),
        ("Add to favorites"@, "Adicionar aos favoritos"@),
        ("Copy Place ID {}"@, "Copiar Place ID {}"@),
        ("Loading games\u{2026}"@, "Carregando jogos\u{2026}"@),
        ("Re-fetch all game feeds"@, "Recarregar todas as listas"@),
        ("Check your connection, then try Refresh."@, "Verifique sua conex\u{00E3}o e tente Atualizar."@),
        ("Statistics"@, "Estat\u{00ED}sticas"@),
        ("Add some accounts to see statistics here."@, "Adicione contas para ver estat\u{00ED}sticas aqui."@),
        ("Presence"@, "Presen\u{00E7}a"@),
        ("Total"@, "Total"@),
        ("Online"@, "Online"@),
    ]
}

/// Entries 25 to 49 of the Brazilian Portuguese dictionary, as
/// (English text, translation) pairs.
pub open spec fn pt_br_entries_1() -> Seq<(Seq<char>, Seq<char>)> {
    seq![
        ("In Game"@, "No Jogo"@),
        ("In Studio"@, "No Studio"@),
        ("Offline"@, "Offline"@),
        ("Moderated"@, "Moderadas"@),
        ("Cookie Expired"@, "Cookie Expirado"@),
        ("Roblox clients running:"@, "Roblox em execu\u{00E7}\u{00E3}o:"@),
        ("Accounts by Group"@, "Contas por Grupo"@),
        ("Split of accounts by current status"@, "Divis\u{00E3}o das contas por status atual"@),
        ("{}/{} online"@, "{}/{} online"@),
        ("Every account in RM"@, "Todas as contas do RM"@),
        ("Accounts with a running Roblox client"@, "Contas com Roblox em execu\u{00E7}\u{00E3}o"@),
        ("Accounts currently in a Roblox game"@, "Contas atualmente em um jogo Roblox"@),
        ("Accounts open in Roblox Studio"@, "Contas abertas no Roblox Studio"@),
        ("Accounts with no Roblox client running"@, "Contas sem Roblox em execu\u{00E7}\u{00E3}o"@),
        ("Accounts with an active moderation/termination"@, "Contas com modera\u{00E7}\u{00E3}o/termina\u{00E7}\u{00E3}o ativa"@),
        ("Accounts whose cookie no longer validates"@, "Contas cujo cookie n\u{00E3}o valida mais"@),
        ("Launch"@, "Lan\u{00E7}ar"@),
        ("Enter a place ID to launch this account"@, "Insira um Place ID para lan\u{00E7}ar esta conta"@),
        ("Place ID"@, "Place ID"@),
        ("Job ID (optional)"@, "Job ID (opcional)"@),
        ("Specific server GUID"@, "GUID do servidor espec\u{00ED}fico"@),
        ("Details"@, "Detalhes"@),
        ("Alias"@, "Apelido"@),
        ("Group"@, "Grupo"@),
        ("Validated"@, "Validado"@),
    ]
}

/// Entries 50 to 74 of the Brazilian Portuguese dictionary, as
/// (English text, translation) pairs.
pub open spec fn pt_br_entries_2() -> Seq<(Seq<char>, Seq<char>)> {
    seq![
        ("Location"@, "Localiza\u{00E7}\u{00E3}o"@),
        ("Notes"@, "Anota\u{00E7}\u{00F5}es"@),
        ("Saved automatically when you click away."@, "Salvo automaticamente ao clicar fora."@),
        ("Add notes about this account (origin, password hints, role\u{2026})"@, "Anota\u{00E7}\u{00F5}es sobre esta conta (origem, dicas de senha, fun\u{00E7}\u{00E3}o\u{2026})"@),
        ("Cookie expired. Remove and re-add this account with a fresh cookie."@, "Cookie expirado. Remova e adicione esta conta novamente com um cookie novo."@),
        ("Remove account"@, "Remover conta"@),
        ("More actions"@, "Mais a\u{00E7}\u{00F5}es"@),
        ("Open a webview signed in as this account"@, "Abrir navegador logado como esta conta"@),
        ("Open browser as"@, "Abrir como"@),
        ("Save these inputs as a launch preset"@, "Salvar estes dados como predefini\u{00E7}\u{00E3}o de lan\u{00E7}amento"@),
        ("Save as preset"@, "Salvar como predefini\u{00E7}\u{00E3}o"@),
        ("Save"@, "Salvar"@),
        ("Cancel"@, "Cancelar"@),
        ("Preset name"@, "Nome da predefini\u{00E7}\u{00E3}o"@),
        ("Kill all running Roblox instances"@, "Encerrar todas as inst\u{00E2}ncias do Roblox"@),
        ("Enter a Place ID to launch"@, "Insira um Place ID para lan\u{00E7}ar"@),
        ("Launch this account into the chosen place"@, "Lan\u{00E7}ar esta conta no jogo escolhido"@),
        ("Storage"@, "Armazenamento"@),
        ("Launch Behavior"@, "Comportamento de Lan\u{00E7}amento"@),
        ("Use Windows Credential Manager (instead of encrypted file)"@, "Usar o Gerenciador de Credenciais do Windows (em vez de arquivo criptografado)"@),
        ("Enable multi-instance"@, "Habilitar multi-inst\u{00E2}ncia"@),
        ("Close all Roblox processes (including tray) before enabling."@, "Feche todos os processos do Roblox (incluindo a bandeja) antes de habilitar."@),
        ("Kill Roblox tray/background processes automatically"@, "Encerrar processos de bandeja/fundo do Roblox automaticamente"@),
        ("Kills idle \"always running\" Roblox processes (--launch-to-tray)."@, "Encerra processos Roblox \"sempre em execu\u{00E7}\u{00E3}o\" ociosos (--launch-to-tray)."@),
        ("Auto-arrange Roblox windows after launch"@, "Organizar janelas do Roblox automaticamente ap\u{00F3}s o lan\u{00E7}amento"@),
    ]
}

/// Entries 75 to 99 of the Brazilian Portuguese dictionary, as
/// (English text, translation) pairs.
pub open spec fn pt_br_entries_3() -> Seq<(Seq<char>, Seq<char>)> {
    seq![
        ("Tiles Roblox windows in a grid (2 = side-by-side, 4 = 2\u{00D7}2, etc.)."@, "Organiza as janelas do Roblox em grade (2 = lado a lado, 4 = 2\u{00D7}2, etc.)."@),
        ("Name Roblox windows after their account"@, "Nomear janelas do Roblox pelo nome da conta"@),
        ("Window titles are readable by any program, and show up in screenshots and streams."@, "Os t\u{00ED}tulos das janelas s\u{00E3}o leg\u{00ED}veis por qualquer programa e aparecem em capturas e transmiss\u{00F5}es."@),
        ("Launch delay:"@, "Atraso de lan\u{00E7}amento:"@),
        ("Minimum gap between account launches. Applies to single and bulk launches. 0 disables throttling."@, "Intervalo m\u{00ED}nimo entre lan\u{00E7}amentos de contas. Aplica-se a lan\u{00E7}amentos \u{00FA}nicos e em massa. 0 desativa a limita\u{00E7}\u{00E3}o."@),
        ("Privacy"@, "Privacidade"@),
        ("Clear RobloxCookies.dat before each launch"@, "Limpar RobloxCookies.dat antes de cada lan\u{00E7}amento"@),
        ("Prevents Roblox from associating your accounts via stored cookies."@, "Impede que o Roblox associe suas contas por meio de cookies armazenados."@),
        ("Anonymize account names"@, "Anonimizar nomes de contas"@),
        ("Replaces usernames and display names with generic \"Account 1\", \"Account 2\", etc."@, "Substitui nomes de usu\u{00E1}rio e nomes de exibi\u{00E7}\u{00E3}o por gen\u{00E9}ricos como \"Conta 1\", \"Conta 2\", etc."@),
        ("Developer Options"@, "Op\u{00E7}\u{00F5}es de Desenvolvedor"@),
        ("Show the Asset Manager tab"@, "Mostrar a aba Gerenciador de Assets"@),
        ("Upload assets to Roblox from any saved account, track moderation, and grant experiences permission to use them."@, "Envie assets para o Roblox de qualquer conta salva, acompanhe a modera\u{00E7}\u{00E3}o e conceda permiss\u{00F5}es para experi\u{00EA}ncias usarem."@),
        ("Roblox Player Path"@, "Caminho do Roblox Player"@),
        ("Leave empty for auto-detect:"@, "Deixe vazio para detectar automaticamente:"@),
        ("Backup & Transfer"@, "Backup e Transfer\u{00EA}ncia"@),
        ("Export your accounts to a portable file. Cookies are included in plaintext, so treat the file like a password manager backup."@, "Exporte suas contas para um arquivo port\u{00E1}til. Os cookies est\u{00E3}o em texto puro, ent\u{00E3}o trate o arquivo como um backup de gerenciador de senhas."@),
        ("Export accounts\u{2026}"@, "Exportar contas\u{2026}"@),
        ("Import accounts\u{2026}"@, "Importar contas\u{2026}"@),
        ("Language"@, "Idioma"@),
        ("English"@, "English"@),
        ("Portugu\u{00EA}s (BR)"@, "Portugu\u{00EA}s (BR)"@),
        ("Encryption"@, "Criptografia"@),
        ("Accounts are encrypted with your master password."@, "As contas s\u{00E3}o criptografadas com sua senha mestra."@),
        ("RM asks for it every time it starts. If you forget it, the accounts cannot be recovered."@, "O RM pede a senha sempre que inicia. Se voc\u{00EA} esquec\u{00EA}-la, as contas n\u{00E3}o podem ser recuperadas."@),
    ]
}

/// Entries 100 to 124 of the Brazilian Portuguese dictionary, as
/// (English text, translation) pairs.
pub open spec fn pt_br_entries_4() -> Seq<(Seq<char>, Seq<char>)> {
    seq![
        ("Accounts are encrypted and unlock automatically on this PC."@, "As contas s\u{00E3}o criptografadas e desbloqueiam automaticamente neste PC."@),
        ("The key is held in Windows Credential Manager, so the file is useless on its own. Anything running as you can still read it."@, "A chave fica no Gerenciador de Credenciais do Windows, ent\u{00E3}o o arquivo sozinho n\u{00E3}o vale nada. Qualquer programa rodando como voc\u{00EA} ainda pode l\u{00EA}-lo."@),
        ("Change your master password:"@, "Alterar sua senha mestra:"@),
        ("Require a master password at startup:"@, "Exigir senha mestra na inicializa\u{00E7}\u{00E3}o:"@),
        ("New password"@, "Nova senha"@),
        ("Confirm password"@, "Confirmar senha"@),
        ("Passwords do not match."@, "As senhas n\u{00E3}o coincidem."@),
        ("Stop asking for a password"@, "Parar de pedir a senha"@),
        ("Save Settings"@, "Salvar Configura\u{00E7}\u{00F5}es"@),
        ("Change password"@, "Alterar senha"@),
        ("Set password"@, "Definir senha"@),
        ("RM asks for it every time it starts. If you forget it, the accounts cannot be recovered."@, "O RM pede a senha sempre que inicia. Se voc\u{00EA} esquec\u{00EA}-la, as contas n\u{00E3}o podem ser recuperadas."@),
        ("The key is held in Windows Credential Manager, so the file is useless on its own. Anything running as you can still read it."@, "A chave fica no Gerenciador de Credenciais do Windows, ent\u{00E3}o o arquivo sozinho n\u{00E3}o vale nada. Qualquer programa rodando como voc\u{00EA} ainda pode l\u{00EA}-lo."@),
        ("Renames each launched Roblox window to the account's alias, so tiled windows are tellable apart.\n\nOff by default. This writes to the Roblox window rather than just reading it, and how Hyperion treats that is not documented. It also changes what capture software matching on window title will find."@, "Renomeia cada janela do Roblox lan\u{00E7}ada para o apelido da conta, para que as janelas organizadas sejam distingu\u{00ED}veis.\n\nDesativado por padr\u{00E3}o. Isso grava na janela do Roblox, em vez de apenas l\u{00EA}-la, e como o Hyperion trata isso n\u{00E3}o \u{00E9} documentado. Tamb\u{00E9}m altera o que o software de captura que usa o t\u{00ED}tulo da janela encontrar\u{00E1}."@),
        ("\u{26a0} Uploads are permanent and public. Every asset is moderated under the account that uploaded it."@, "\u{26a0} Os uploads s\u{00E3}o permanentes e p\u{00FA}blicos. Cada asset \u{00E9} moderado na conta que o enviou."@),
        ("(Roblox rate-limits some IPs)"@, "(o Roblox limita algumas IPs)"@),
        ("\u{26a0} This interacts with Hyperion anti-cheat and may carry ban risk."@, "\u{26a0} Isso interage com o anti-cheat Hyperion e pode trazer risco de banimento."@),
        ("\u{26a0} Recommended when multi-instance is enabled. Tray processes stack up."@, "\u{26a0} Recomendado quando a multi-inst\u{00E2}ncia est\u{00E1} habilitada. Processos de bandeja se acumulam."@),
        ("{} Accounts Selected"@, "{} Contas Selecionadas"@),
        ("Clear selection"@, "Limpar sele\u{00E7}\u{00E3}o"@),
        ("Bulk Launch"@, "Lan\u{00E7}amento em Massa"@),
        ("All selected accounts will join the same server sequentially."@, "Todas as contas selecionadas entrar\u{00E3}o no mesmo servidor, em sequ\u{00EA}ncia."@),
        ("Launch {} Accounts"@, "Lan\u{00E7}ar {} Contas"@),
        ("Kill All Instances"@, "Encerrar Todas as Inst\u{00E2}ncias"@),
        ("Account {}"@, "Conta {}"@),
    ]
}

/// Entries 125 to 149 of the Brazilian Portuguese dictionary, as
/// (English text, translation) pairs.
pub open spec fn pt_br_entries_5() -> Seq<(Seq<char>, Seq<char>)> {
    seq![
        ("Launch all"@, "Lan\u{00E7}ar todos"@),
        ("Kill all"@, "Encerrar todos"@),
        ("Place ID:"@, "Place ID:"@),
        ("Job ID (optional):"@, "Job ID (opcional):"@),
        ("Edit Preset"@, "Editar Predefini\u{00E7}\u{00E3}o"@),
        ("New Preset"@, "Nova Predefini\u{00E7}\u{00E3}o"@),
        ("Reload"@, "Recarregar"@),
        ("Re-scan the presets folder for new or removed presets"@, "Revarrer a pasta de predefini\u{00E7}\u{00F5}es em busca de novas ou removidas"@),
        ("Open folder"@, "Abrir pasta"@),
        ("Reveal the presets folder in Explorer"@, "Revelar a pasta de predefini\u{00E7}\u{00F5}es no Explorer"@),
        ("Name:"@, "Nome:"@),
        ("e.g. Adopt Me"@, "ex.: Adopt Me"@),
        ("e.g. 920587237"@, "ex.: 920587237"@),
        ("Save changes"@, "Salvar altera\u{00E7}\u{00F5}es"@),
        ("+ Add Preset"@, "+ Adicionar Predefini\u{00E7}\u{00E3}o"@),
        ("Place ID must be a number."@, "O Place ID deve ser um n\u{00FA}mero."@),
        ("Saved Presets"@, "Predefini\u{00E7}\u{00F5}es Salvas"@),
        ("No presets yet. Create one above to launch favorite games faster."@, "Nenhuma predefini\u{00E7}\u{00E3}o ainda. Crie uma acima para lan\u{00E7}ar jogos favoritos mais r\u{00E1}pido."@),
        ("Delete"@, "Excluir"@),
        ("Edit"@, "Editar"@),
        ("Place {}, Job {}"@, "Place {}, Job {}"@),
        ("Place {}"@, "Place {}"@),
        ("Search accounts\u{2026}"@, "Buscar contas\u{2026}"@),
        ("Add Account"@, "Adicionar Conta"@),
        ("{} selected"@, "{} selecionadas"@),
    ]
}

/// Entries 150 to 174 of the Brazilian Portuguese dictionary, as
/// (English text, translation) pairs.
pub open spec fn pt_br_entries_6() -> Seq<(Seq<char>, Seq<char>)> {
    seq![
        ("Preset saved"@, "Predefini\u{00E7}\u{00E3}o salva"@),
        ("Preset deleted"@, "Predefini\u{00E7}\u{00E3}o exclu\u{00ED}da"@),
        ("Save failed: {e}"@, "Falha ao salvar: {e}"@),
        ("Delete failed: {e}"@, "Falha ao excluir: {e}"@),
        ("Settings saved"@, "Configura\u{00E7}\u{00F5}es salvas"@),
        ("Game launched"@, "Jogo lan\u{00E7}ado"@),
        ("Copied to clipboard"@, "Copiado para a \u{00E1}rea de transfer\u{00EA}ncia"@),
        ("Refreshing all accounts\u{2026}"@, "Atualizando todas as contas\u{2026}"@),
        ("Could not create folder: {e}"@, "N\u{00E3}o foi poss\u{00ED}vel criar a pasta: {e}"@),
        ("Skipped {} unreadable preset file(s)"@, "{} arquivo(s) de predefini\u{00E7}\u{00E3}o ileg\u{00ED}vel(is) ignorado(s)"@),
        ("Failed to load presets: {e}"@, "Falha ao carregar predefini\u{00E7}\u{00F5}es: {e}"@),
        ("Killed {count} instance(s)"@, "{count} inst\u{00E2}ncia(s) encerrada(s)"@),
        ("Multi-instance enabled"@, "Multi-inst\u{00E2}ncia habilitada"@),
        ("Multi-instance disabled (takes effect after restart)"@, "Multi-inst\u{00E2}ncia desabilitada (entra em vigor ap\u{00F3}s reiniciar)"@),
        ("Failed: {e}"@, "Falhou: {e}"@),
        ("Copied Place ID {}"@, "Place ID {} copiado"@),
        ("Exported {n} account(s) to {}"@, "{n} conta(s) exportada(s) para {}"@),
        ("Export failed: {e}"@, "Exporta\u{00E7}\u{00E3}o falhou: {e}"@),
        ("Imported {n} account(s) ({skipped} already present, skipped)"@, "{n} conta(s) importada(s) ({skipped} j\u{00E1} existentes, puladas)"@),
        ("Import failed: {e}"@, "Importa\u{00E7}\u{00E3}o falhou: {e}"@),
        ("No accounts to export"@, "Nenhuma conta para exportar"@),
        ("Unlock the account store first"@, "Destrave o armazenamento de contas primeiro"@),
        ("No account selected"@, "Nenhuma conta selecionada"@),
        ("Pick an account in the sidebar to view it."@, "Escolha uma conta na barra lateral para visualiz\u{00E1}-la."@),
        ("Manage launch presets"@, "Gerenciar predefini\u{00E7}\u{00F5}es de lan\u{00E7}amento"@),
    ]
}

/// Entries 175 to 199 of the Brazilian Portuguese dictionary, as
/// (English text, translation) pairs.
pub open spec fn pt_br_entries_7() -> Seq<(Seq<char>, Seq<char>)> {
    seq![
        ("Game not found for this Place ID."@, "Jogo n\u{00E3}o encontrado para este Place ID."@),
        ("Ready to launch"@, "Pronto para lan\u{00E7}ar"@),
        ("Identifying game\u{2026}"@, "Identificando jogo\u{2026}"@),
        ("Exploits"@, "Exploits"@),
        ("Refresh"@, "Atualizar"@),
        ("Re-fetch exploit statuses from WEAO"@, "Recarregar status dos exploits do WEAO"@),
        ("Updated"@, "Atualizado"@),
        ("Outdated"@, "Desatualizado"@),
        ("Executor is up to date"@, "Executor est\u{00E1} atualizado"@),
        ("Executor is outdated"@, "Executor est\u{00E1} desatualizado"@),
        ("Loading exploits\u{2026}"@, "Carregando exploits\u{2026}"@),
        ("No exploits found."@, "Nenhum exploit encontrado."@),
        ("Check your connection, then try Refresh."@, "Verifique sua conex\u{00E3}o e tente Atualizar."@),
        ("Paid"@, "Pagos"@),
        ("Free"@, "Gratuitos"@),
        ("External"@, "Externos"@),
        ("Detected"@, "Detectado"@),
        ("Undetected"@, "N\u{00E3}o detectado"@),
        ("Visit"@, "Acessar"@),
        ("View disclaimer"@, "Ver aviso"@),
        ("You have not yet accepted the disclaimer for this area."@, "Voc\u{00EA} ainda n\u{00E3}o aceitou o aviso para esta \u{00E1}rea."@),
        ("The Exploits area is locked until you accept the disclaimer."@, "A \u{00E1}rea de Exploits est\u{00E1} bloqueada at\u{00E9} que voc\u{00EA} aceite o aviso."@),
        ("View terms"@, "Ver termos"@),
        ("Review the disclaimer"@, "Rever o aviso"@),
        ("Agree"@, "Concordar"@),
    ]
}

/// Entries 200 to 224 of the Brazilian Portuguese dictionary, as
/// (English text, translation) pairs.
pub open spec fn pt_br_entries_8() -> Seq<(Seq<char>, Seq<char>)> {
    seq![
        ("Back"@, "Voltar"@),
        ("N/A"@, "N/D"@),
        ("Warning - Exploits"@, "Aviso - Exploits"@),
        ("Exploits disclaimer body"@, "Antes de utilizar esta \u{00E1}rea, leia atentamente:\n\n\u{2022} Esta \u{00E1}rea cont\u{00E9}m informa\u{00E7}\u{00F5}es sobre ferramentas de terceiros usadas para explora\u{00E7}\u{00E3}o/executors no Roblox.\n\u{2022} O uso dessas ferramentas pode violar as regras/Termos do Roblox.\n\u{2022} Existe risco de puni\u{00E7}\u{00E3}o, incluindo advert\u{00EA}ncia, suspens\u{00E3}o ou banimento da conta.\n\u{2022} O status \u{201C}Atualizado\u{201D} n\u{00E3}o significa que a ferramenta seja segura ou indetect\u{00E1}vel.\n\u{2022} Ferramentas de terceiros podem apresentar riscos de seguran\u{00E7}a.\n\u{2022} Links externos devem ser tratados com cautela.\n\u{2022} O Roblox Manager n\u{00E3}o garante o funcionamento, seguran\u{00E7}a ou aus\u{00EA}ncia de puni\u{00E7}\u{00E3}o.\n\u{2022} O uso dessas ferramentas \u{00E9} de responsabilidade do usu\u{00E1}rio.\n\nAo concordar, voc\u{00EA} assume total responsabilidade pelo uso desta \u{00E1}rea."@),
        ("I understand the risks and want to access the Exploits area."@, "Eu entendo os riscos e quero acessar a \u{00E1}rea de Exploits."@),
        ("Continue"@, "Continuar"@),
        ("Move account to trash"@, "Mover conta para a lixeira"@),
        ("Trash"@, "Lixeira"@),
        ("Restore"@, "Restaurar"@),
        ("Delete permanently"@, "Excluir permanentemente"@),
        ("Empty trash"@, "Esvaziar lixeira"@),
        ("No accounts in the trash."@, "N\u{00E3}o h\u{00E1} contas na lixeira."@),
        ("Move account to trash?"@, "Mover conta para a lixeira?"@),
        ("The account can be restored later."@, "A conta poder\u{00E1} ser restaurada posteriormente."@),
        ("This account is running. Are you sure you want to move it to the trash?"@, "Esta conta est\u{00E1} em execu\u{00E7}\u{00E3}o. Tem certeza que deseja mov\u{00EA}-la para a lixeira?"@),
        ("Move to trash"@, "Mover para a lixeira"@),
        ("This action cannot be undone."@, "Esta a\u{00E7}\u{00E3}o n\u{00E3}o poder\u{00E1} ser desfeita."@),
        ("Delete all trashed accounts permanently?"@, "Excluir permanentemente todas as contas da lixeira?"@),
        ("Recently removed"@, "Removida recentemente"@),
        ("Restored account"@, "Conta restaurada"@),
        ("Moved {} account(s) to trash"@, "{n} conta(s) movida(s) para a lixeira"@),
        ("Account permanently deleted"@, "Conta exclu\u{00ED}da permanentemente"@),
        ("Trash emptied"@, "Lixeira esvaziada"@),
        ("Servers"@, "Servidores"@),
        ("Game"@, "Jogo"@),
    ]
}

/// Entries 225 to 247 of the Brazilian Portuguese dictionary, as
/// (English text, translation) pairs.
pub open spec fn pt_br_entries_9() -> Seq<(Seq<char>, Seq<char>)> {
    seq![
        ("No game selected"@, "Nenhum jogo selecionado"@),
        ("Enter a Place ID to view servers."@, "Informe um Place ID para visualizar os servidores."@),
        ("Sort by"@, "Ordenar por"@),
        ("Lowest ping"@, "Menor ping"@),
        ("Emptiest"@, "Mais vazios"@),
        ("Fewest players"@, "Menos jogadores"@),
        ("Most free slots"@, "Mais vagas"@),
        ("Hide full servers"@, "Ocultar servidores cheios"@),
        ("Featured servers"@, "Servidores em destaque"@),
        ("is here"@, "est\u{00E1} aqui"@),
        ("Join"@, "Entrar"@),
        ("Available"@, "Dispon\u{00ED}vel"@),
        ("Full"@, "Cheio"@),
        ("players"@, "jogadores"@),
        ("Load more"@, "Carregar mais"@),
        ("Loading servers\u{2026}"@, "Carregando servidores\u{2026}"@),
        ("No servers available at the moment."@, "Nenhum servidor dispon\u{00ED}vel no momento."@),
        ("Try again"@, "Tentar novamente"@),
        ("Re-fetch servers"@, "Recarregar servidores"@),
        ("Server"@, "Servidor"@),
        ("Move account to trash"@, "Mover conta para a lixeira"@),
        ("Open servers panel"@, "Abrir painel de servidores"@),
        ("Rate limited. Try again in a moment."@, "Limite de requisi\u{00E7}\u{00F5}es atingido. Tente novamente em instantes."@),
    ]
}

/// The Brazilian Portuguese dictionary as data: (English text, translation)
/// pairs in order of precedence.
pub open spec fn pt_br_entries() -> Seq<(Seq<char>, Seq<char>)> {
    pt_br_entries_0() + pt_br_entries_1() + pt_br_entries_2() + pt_br_entries_3() + pt_br_entries_4()
        + pt_br_entries_5() + pt_br_entries_6() + pt_br_entries_7() + pt_br_entries_8()
        + pt_br_entries_9()
}

proof fn lemma_table_lookup_shift(
    a: Seq<(Seq<char>, Seq<char>)>,
    b: Seq<(Seq<char>, Seq<char>)>,
    key: Seq<char>,
    j: int,
)
    requires
        0 <= j,
    ensures
        table_lookup(a + b, key, a.len() + j) == table_lookup(b, key, j),
    decreases b.len() - j,
{
    if j < b.len() {
        lemma_table_lookup_shift(a, b, key, j + 1);
        assert((a + b)[a.len() + j] == b[j]);
    }
}

proof fn lemma_table_lookup_concat(
    a: Seq<(Seq<char>, Seq<char>)>,
    b: Seq<(Seq<char>, Seq<char>)>,
    key: Seq<char>,
    i: int,
)
    requires
        0 <= i <= a.len(),
    ensures
        table_lookup(a + b, key, i) == match table_lookup(a, key, i) {
            Some(t) => Some(t),
            None => table_lookup(b, key, 0),
        },
    decreases a.len() - i,
{
    if i == a.len() {
        lemma_table_lookup_shift(a, b, key, 0);
    } else {
        lemma_table_lookup_concat(a, b, key, i + 1);
        assert((a + b)[i] == a[i]);
    }
}

#[verifier::rlimit(50)]
proof fn lemma_pt_br_part_0_is_table(key: Seq<char>)
    ensures
        pt_br_part_0(key) == table_lookup(pt_br_entries_0(), key, 0),
{
    reveal_with_fuel(table_lookup, 27);
    assert(pt_br_entries_0().len() == 25);
}

#[verifier::rlimit(50)]
proof fn lemma_pt_br_part_1_is_table(key: Seq<char>)
    ensures
        pt_br_part_1(key) == table_lookup(pt_br_entries_1(), key, 0),
{
    reveal_with_fuel(table_lookup, 27);
    assert(pt_br_entries_1().len() == 25);
}

#[verifier::rlimit(50)]
proof fn lemma_pt_br_part_2_is_table(key: Seq<char>)
    ensures
        pt_br_part_2(key) == table_lookup(pt_br_entries_2(), key, 0),
{
    reveal_with_fuel(table_lookup, 27);
    assert(pt_br_entries_2().len() == 25);
}

#[verifier::rlimit(50)]
proof fn lemma_pt_br_part_3_is_table(key: Seq<char>)
    ensures
        pt_br_part_3(key) == table_lookup(pt_br_entries_3(), key, 0),
{
    reveal_with_fuel(table_lookup, 27);
    assert(pt_br_entries_3().len() == 25);
}

#[verifier::rlimit(50)]
proof fn lemma_pt_br_part_4_is_table(key: Seq<char>)
    ensures
        pt_br_part_4(key) == table_lookup(pt_br_entries_4(), key, 0),
{
    reveal_with_fuel(table_lookup, 27);
    assert(pt_br_entries_4().len() == 25);
}

#[verifier::rlimit(50)]
proof fn lemma_pt_br_part_5_is_table(key: Seq<char>)
    ensures
        pt_br_part_5(key) == table_lookup(pt_br_entries_5(), key, 0),
{
    reveal_with_fuel(table_lookup, 27);
    assert(pt_br_entries_5().len() == 25);
}

#[verifier::rlimit(50)]
proof fn lemma_pt_br_part_6_is_table(key: Seq<char>)
    ensures
        pt_br_part_6(key) == table_lookup(pt_br_entries_6(), key, 0),
{
    reveal_with_fuel(table_lookup, 27);
    assert(pt_br_entries_6().len() == 25);
}

#[verifier::rlimit(50)]
proof fn lemma_pt_br_part_7_is_table(key: Seq<char>)
    ensures
        pt_br_part_7(key) == table_lookup(pt_br_entries_7(), key, 0),
{
    reveal_with_fuel(table_lookup, 27);
    assert(pt_br_entries_7().len() == 25);
}

#[verifier::rlimit(50)]
proof fn lemma_pt_br_part_8_is_table(key: Seq<char>)
    ensures
        pt_br_part_8(key) == table_lookup(pt_br_entries_8(), key, 0),
{
    reveal_with_fuel(table_lookup, 27);
    assert(pt_br_entries_8().len() == 25);
}

#[verifier::rlimit(50)]
proof fn lemma_pt_br_part_9_is_table(key: Seq<char>)
    ensures
        pt_br_part_9(key) == table_lookup(pt_br_entries_9(), key, 0),
{
    reveal_with_fuel(table_lookup, 25);
    assert(pt_br_entries_9().len() == 23);
}

/// The Brazilian Portuguese dictionary is the table `pt_br_entries`: a key
/// is shown as the translation of its first entry there ("Full" as "Cheio",
/// "Available" as "Dispon\u{00ED}vel"), and a key the table lacks as itself.
pub proof fn lemma_pt_br_is_the_table(key: Seq<char>)
    ensures
        pt_br_spec(key) == table_lookup(pt_br_entries(), key, 0),
        tr_spec(Language::PtBr, key) == match table_lookup(pt_br_entries(), key, 0) {
            Some(t) => t,
            None => key,
        },
{
    lemma_pt_br_part_0_is_table(key);
    lemma_pt_br_part_1_is_table(key);
    lemma_pt_br_part_2_is_table(key);
    lemma_pt_br_part_3_is_table(key);
    lemma_pt_br_part_4_is_table(key);
    lemma_pt_br_part_5_is_table(key);
    lemma_pt_br_part_6_is_table(key);
    lemma_pt_br_part_7_is_table(key);
    lemma_pt_br_part_8_is_table(key);
    lemma_pt_br_part_9_is_table(key);
    let c1 = pt_br_entries_0() + pt_br_entries_1();
    let c2 = c1 + pt_br_entries_2();
    let c3 = c2 + pt_br_entries_3();
    let c4 = c3 + pt_br_entries_4();
    let c5 = c4 + pt_br_entries_5();
    let c6 = c5 + pt_br_entries_6();
    let c7 = c6 + pt_br_entries_7();
    let c8 = c7 + pt_br_entries_8();
    lemma_table_lookup_concat(pt_br_entries_0(), pt_br_entries_1(), key, 0);
    lemma_table_lookup_concat(c1, pt_br_entries_2(), key, 0);
    lemma_table_lookup_concat(c2, pt_br_entries_3(), key, 0);
    lemma_table_lookup_concat(c3, pt_br_entries_4(), key, 0);
    lemma_table_lookup_concat(c4, pt_br_entries_5(), key, 0);
    lemma_table_lookup_concat(c5, pt_br_entries_6(), key, 0);
    lemma_table_lookup_concat(c6, pt_br_entries_7(), key, 0);
    lemma_table_lookup_concat(c7, pt_br_entries_8(), key, 0);
    lemma_table_lookup_concat(c8, pt_br_entries_9(), key, 0);
}

} // verus!
